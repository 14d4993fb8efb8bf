//! The platform's per-user configuration root, and the registry directory
//! derived from it.

use vstd::prelude::*;
use crate::paths::{join_of, join_path};
use crate::store::StoreError;

verus! {

/// Relies on directories::BaseDirs::new and BaseDirs::config_dir: the
/// platform's per-user configuration root as UTF-8 bytes, or `None` when
/// the platform has no user profile or the path is not UTF-8. What comes
/// back depends on the machine and its environment, so nothing is stated.
#[verifier::external_body]
fn config_root() -> (r: Option<Vec<u8>>) {
    directories::BaseDirs::new().and_then(
        |b| b.config_dir().to_str().map(|s| s.as_bytes().to_vec()),
    )
}

/// The registry directory for this program: the per-user configuration
/// root with the program's name joined onto it. `StoreUnavailable` exactly
/// when the platform resolves no configuration root — fatal to the whole
/// registry and surfaced, never swallowed.
pub fn resolve_registry_dir(program_name: &Vec<u8>) -> (r: Result<Vec<u8>, StoreError>)
    ensures
        r matches Ok(p) ==> exists|root: Seq<u8>| p@ == join_of(root, program_name@),
        r matches Err(e) ==> e == StoreError::StoreUnavailable,
{
    match config_root() {
        Some(root) => {
            let p = join_path(&root, program_name);
            proof {
                assert(p@ == join_of(root@, program_name@));
            }
            Ok(p)
        },
        None => Err(StoreError::StoreUnavailable),
    }
}

} // verus!
