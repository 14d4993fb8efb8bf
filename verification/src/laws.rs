//! The laws the store keeps, proved from the `put`, registration and
//! rebuild relations: idempotent re-registration, dedup by name,
//! kind-based linking, and rebuild completeness.

use vstd::prelude::*;
use crate::paths::{base_name_of, kind_of_name, url_sibling_of, Kind};
use crate::store::{appended, has_name, put_blocked, put_post, put_succeeds, rebuild_post,
    stored_copy_of, stored_link_of, Entry, PutOutcome, StoreError, StoredObject, Target};
use crate::service::{batch_post, register_post, RegistryService};

verus! {

/// Appending one object adds exactly its name to the stored names.
proof fn lemma_has_name_appended(pre: Seq<StoredObject>, post: Seq<StoredObject>, n: Seq<u8>)
    requires
        appended(pre, post),
    ensures
        has_name(post, n) <==> (has_name(pre, n) || post.last().name@ == n),
{
    if has_name(pre, n) {
        let i = choose|i: int| 0 <= i < pre.len() && pre[i].name@ == n;
        assert(post[i].name@ == n);
    }
    if has_name(post, n) && post.last().name@ != n {
        let i = choose|i: int| 0 <= i < post.len() && post[i].name@ == n;
        assert(i < pre.len());
        assert(pre[i].name@ == n);
    }
    if post.last().name@ == n {
        assert(post[post.len() - 1].name@ == n);
    }
}

/// A successful `put` leaves the target's base name stored, so any later
/// `put` of that name is blocked by the dedup check.
proof fn lemma_put_ok_blocks(
    pre: Seq<StoredObject>,
    post: Seq<StoredObject>,
    volume: u64,
    t: Target,
    r: Result<PutOutcome, StoreError>,
)
    requires
        put_post(pre, post, volume, t, r),
        r is Ok,
    ensures
        put_blocked(post, base_name_of(t.path@)),
        !put_blocked(pre, base_name_of(t.path@)) ==> appended(pre, post) && post.last().name@
            == base_name_of(t.path@),
{
    let name = base_name_of(t.path@);
    if put_blocked(pre, name) {
        assert(post == pre);
    } else {
        assert(appended(pre, post) && post.last().name@ == name);
        lemma_has_name_appended(pre, post, name);
    }
}

/// Dedup by name: once a source file has been stored, registering any
/// source that normalizes to the same name is a no-op that changes no
/// stored object — the first registration wins and is never overwritten.
pub proof fn lemma_put_dedup(
    pre: Seq<StoredObject>,
    mid: Seq<StoredObject>,
    post: Seq<StoredObject>,
    volume: u64,
    t1: Target,
    t2: Target,
    r1: Result<PutOutcome, StoreError>,
    r2: Result<PutOutcome, StoreError>,
)
    requires
        put_post(pre, mid, volume, t1, r1),
        r1 is Ok,
        base_name_of(t2.path@) == base_name_of(t1.path@),
        put_post(mid, post, volume, t2, r2),
    ensures
        r2 == Ok::<PutOutcome, StoreError>(PutOutcome::AlreadyStored),
        post == mid,
{
    lemma_put_ok_blocks(pre, mid, volume, t1, r1);
}

/// Idempotence: a second `put` of the very same target yields the same
/// store and reports the entry as already stored, with no duplicate.
pub proof fn lemma_put_idempotent(
    pre: Seq<StoredObject>,
    mid: Seq<StoredObject>,
    post: Seq<StoredObject>,
    volume: u64,
    t: Target,
    r1: Result<PutOutcome, StoreError>,
    r2: Result<PutOutcome, StoreError>,
)
    requires
        put_post(pre, mid, volume, t, r1),
        r1 is Ok,
        put_post(mid, post, volume, t, r2),
    ensures
        r2 == Ok::<PutOutcome, StoreError>(PutOutcome::AlreadyStored),
        post == mid,
{
    lemma_put_dedup(pre, mid, post, volume, t, t, r1, r2);
}

/// Kind-based linking, `.url` side: a fresh `.url` registration stores an
/// independent byte-identical copy, never a link.
pub proof fn lemma_put_url_copies(
    pre: Seq<StoredObject>,
    post: Seq<StoredObject>,
    volume: u64,
    t: Target,
    r: Result<PutOutcome, StoreError>,
)
    requires
        put_post(pre, post, volume, t, r),
        !put_blocked(pre, base_name_of(t.path@)),
        kind_of_name(base_name_of(t.path@)) == Kind::UrlLink,
        t.readable,
    ensures
        r == Ok::<PutOutcome, StoreError>(PutOutcome::Copied),
        appended(pre, post),
        stored_copy_of(post.last(), base_name_of(t.path@), t.bytes@),
{
}

/// Kind-based linking, same volume: a fresh non-`.url` registration on the
/// store's own volume stores a hard link sharing the target's content
/// identity.
pub proof fn lemma_put_links_same_volume(
    pre: Seq<StoredObject>,
    post: Seq<StoredObject>,
    volume: u64,
    t: Target,
    r: Result<PutOutcome, StoreError>,
)
    requires
        put_post(pre, post, volume, t, r),
        !put_blocked(pre, base_name_of(t.path@)),
        kind_of_name(base_name_of(t.path@)) != Kind::UrlLink,
        t.volume == volume,
    ensures
        r == Ok::<PutOutcome, StoreError>(PutOutcome::Linked),
        appended(pre, post),
        stored_link_of(post.last(), base_name_of(t.path@), t.bytes@, t.inode),
{
}

/// Kind-based linking, cross volume: when no hard link is possible, the
/// fallback stores a byte-identical copy and the caller never sees the
/// link failure.
pub proof fn lemma_put_copies_cross_volume(
    pre: Seq<StoredObject>,
    post: Seq<StoredObject>,
    volume: u64,
    t: Target,
    r: Result<PutOutcome, StoreError>,
)
    requires
        put_post(pre, post, volume, t, r),
        !put_blocked(pre, base_name_of(t.path@)),
        kind_of_name(base_name_of(t.path@)) != Kind::UrlLink,
        t.volume != volume,
        t.readable,
    ensures
        r == Ok::<PutOutcome, StoreError>(PutOutcome::Copied),
        appended(pre, post),
        stored_copy_of(post.last(), base_name_of(t.path@), t.bytes@),
{
}

/// A batch of targets that are all fresh against the store, acceptable to
/// it, and mutually distinct: no name repeats another, no name is another
/// name's `.url` sibling.
pub open spec fn batch_fresh(objs: Seq<StoredObject>, volume: u64, ts: Seq<Target>) -> bool {
    &&& forall|i: int|
        0 <= i < ts.len() ==> !put_blocked(objs, #[trigger] base_name_of(ts[i].path@))
            && put_succeeds(volume, ts[i])
    &&& forall|i: int, j: int|
        0 <= i < ts.len() && 0 <= j < ts.len() && i != j ==> #[trigger] base_name_of(ts[i].path@)
            != #[trigger] base_name_of(ts[j].path@)
    &&& forall|i: int, j: int|
        0 <= i < ts.len() && 0 <= j < ts.len() && i != j ==> url_sibling_of(
            #[trigger] base_name_of(ts[i].path@),
        ) != #[trigger] base_name_of(ts[j].path@)
}

/// Registering a fresh, distinct batch appends one stored object per
/// target, in drop order, each named by its target's base name, and moves
/// no earlier object.
pub proof fn lemma_batch_all_fresh(
    pre: RegistryService,
    post: RegistryService,
    ts: Seq<Target>,
    rs: Seq<Result<usize, StoreError>>,
)
    requires
        batch_post(pre, post, ts, rs),
        batch_fresh(pre.store.objects@, pre.store.volume, ts),
    ensures
        post.store.objects@.len() == pre.store.objects@.len() + ts.len(),
        forall|i: int|
            0 <= i < pre.store.objects@.len() ==> post.store.objects@[i]
                == pre.store.objects@[i],
        forall|i: int|
            0 <= i < ts.len() ==> post.store.objects@[pre.store.objects@.len() + i].name@
                == #[trigger] base_name_of(ts[i].path@),
    decreases ts.len(),
{
    if ts.len() == 0 {
        assert(post.store.objects@ == pre.store.objects@);
    } else {
        let mid = choose|mid: RegistryService|
            #[trigger] register_post(pre, mid, ts[0], rs[0]) && batch_post(
                mid,
                post,
                ts.skip(1),
                rs.skip(1),
            );
        let name0 = base_name_of(ts[0].path@);
        assert(!put_blocked(pre.store.objects@, name0) && put_succeeds(pre.store.volume, ts[0]));
        assert(appended(pre.store.objects@, mid.store.objects@));
        assert(mid.store.objects@.last().name@ == name0) by {
            let kind = kind_of_name(name0);
            if kind == Kind::UrlLink || ts[0].volume != pre.store.volume {
                assert(stored_copy_of(mid.store.objects@.last(), name0, ts[0].bytes@));
            } else {
                assert(stored_link_of(mid.store.objects@.last(), name0, ts[0].bytes@, ts[0].inode));
            }
        };
        assert(batch_fresh(mid.store.objects@, mid.store.volume, ts.skip(1))) by {
            assert forall|i: int| 0 <= i < ts.skip(1).len() implies !put_blocked(
                mid.store.objects@,
                #[trigger] base_name_of(ts.skip(1)[i].path@),
            ) && put_succeeds(mid.store.volume, ts.skip(1)[i]) by {
                assert(ts.skip(1)[i] == ts[i + 1]);
                let n = base_name_of(ts[i + 1].path@);
                lemma_has_name_appended(pre.store.objects@, mid.store.objects@, n);
                lemma_has_name_appended(
                    pre.store.objects@,
                    mid.store.objects@,
                    url_sibling_of(n),
                );
                assert(n != name0);
                assert(url_sibling_of(n) != name0);
            }
            assert forall|i: int, j: int|
                0 <= i < ts.skip(1).len() && 0 <= j < ts.skip(1).len() && i != j implies
                #[trigger] base_name_of(ts.skip(1)[i].path@) != #[trigger] base_name_of(
                ts.skip(1)[j].path@,
            ) by {
                assert(ts.skip(1)[i] == ts[i + 1]);
                assert(ts.skip(1)[j] == ts[j + 1]);
            }
            assert forall|i: int, j: int|
                0 <= i < ts.skip(1).len() && 0 <= j < ts.skip(1).len() && i != j implies
                url_sibling_of(#[trigger] base_name_of(ts.skip(1)[i].path@))
                    != #[trigger] base_name_of(ts.skip(1)[j].path@) by {
                assert(ts.skip(1)[i] == ts[i + 1]);
                assert(ts.skip(1)[j] == ts[j + 1]);
            }
        };
        lemma_batch_all_fresh(mid, post, ts.skip(1), rs.skip(1));
        assert forall|i: int| 0 <= i < ts.len() implies
            post.store.objects@[pre.store.objects@.len() + i].name@ == #[trigger] base_name_of(
            ts[i].path@,
        ) by {
            if i == 0 {
                assert(post.store.objects@[pre.store.objects@.len() as int]
                    == mid.store.objects@[mid.store.objects@.len() - 1]);
            } else {
                assert(ts.skip(1)[i - 1] == ts[i]);
                assert(post.store.objects@[mid.store.objects@.len() + (i - 1)].name@
                    == base_name_of(ts.skip(1)[i - 1].path@));
            }
        }
    }
}

/// Rebuild completeness: after registering a batch of fresh, distinct
/// files, a rebuild of the store lists every previously stored entry
/// unchanged in place, plus one entry per registered file, in drop order,
/// named by its base name.
pub proof fn lemma_rebuild_completeness(
    pre: RegistryService,
    post: RegistryService,
    ts: Seq<Target>,
    rs: Seq<Result<usize, StoreError>>,
    es: Seq<Entry>,
)
    requires
        batch_post(pre, post, ts, rs),
        batch_fresh(pre.store.objects@, pre.store.volume, ts),
        rebuild_post(post.store.objects@, post.store.path@, es),
    ensures
        es.len() == pre.store.objects@.len() + ts.len(),
        forall|i: int|
            0 <= i < pre.store.objects@.len() ==> es[i].name@ == pre.store.objects@[i].name@,
        forall|i: int|
            0 <= i < ts.len() ==> es[pre.store.objects@.len() + i].name@
                == #[trigger] base_name_of(ts[i].path@),
{
    lemma_batch_all_fresh(pre, post, ts, rs);
}

} // verus!

