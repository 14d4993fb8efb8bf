//! The registry service: the ordered entry list the UI renders, built by a
//! startup rebuild and grown by registration, with per-item failure
//! isolation in batches, non-fatal icon attachment, and launch reporting.

use vstd::prelude::*;
use crate::paths::{base_name, base_name_of, bytes_eq, classify, clone_bytes, join_of, join_path,
    kind_of_name, url_sibling, url_sibling_of, Kind};
use crate::store::{appended, has_name, put_blocked, put_succeeds, rebuild_post, stored_copy_of,
    stored_link_of, Entry, EntryStore, StoreError, Target};

verus! {

/// Extracting an icon failed; never fatal to a registration or a rebuild.
#[derive(Clone, Copy, Debug, PartialEq, Eq, Structural)]
pub enum IconError {
    IconUnavailable,
}

/// Launching an entry failed; carries the path that would not start.
pub struct LaunchError {
    pub path: Vec<u8>,
}

/// The files that exist outside the registry, as the launch report sees
/// them: a launch succeeds exactly when the target path is among them and
/// the platform starts it cleanly.
pub struct World {
    pub files: Vec<Target>,
}

pub open spec fn world_launches(files: Seq<Target>, path: Seq<u8>) -> bool {
    exists|i: int| 0 <= i < files.len() && files[i].path@ == path && files[i].launch_ok
}

/// The coordinator: the store and the ordered (entry, icon) list exposed
/// to the UI; display indices are positions in `entries`.
pub struct RegistryService {
    pub store: EntryStore,
    pub entries: Vec<Entry>,
}

/// `e` is the entry a fresh registration of `t` exposes: named by the
/// target's base name, launching the original path, with the icon to be
/// regenerated from the stored object.
pub open spec fn registered_entry(e: Entry, store_path: Seq<u8>, t: Target) -> bool {
    let name = base_name_of(t.path@);
    &&& e.name@ == name
    &&& e.target_path@ == t.path@
    &&& e.stored_path@ == join_of(store_path, name)
    &&& e.icon_source@ == e.stored_path@
    &&& e.kind == kind_of_name(name)
    &&& e.icon is None
}

/// The service did not change, up to views.
pub open spec fn service_unchanged(pre: RegistryService, post: RegistryService) -> bool {
    &&& post.store.path@ == pre.store.path@
    &&& post.store.volume == pre.store.volume
    &&& post.store.objects@ == pre.store.objects@
    &&& post.entries@ == pre.entries@
}

/// The before/after relation of registering one target: a no-op that
/// returns the existing display index when the name is already stored; one
/// appended object and one appended entry (at the returned index) when the
/// store takes it; an error and no change when it cannot.
pub open spec fn register_post(
    pre: RegistryService,
    post: RegistryService,
    t: Target,
    r: Result<usize, StoreError>,
) -> bool {
    let name = base_name_of(t.path@);
    let kind = kind_of_name(name);
    &&& post.store.path@ == pre.store.path@
    &&& post.store.volume == pre.store.volume
    &&& (put_blocked(pre.store.objects@, name) ==> service_unchanged(pre, post) && (r matches Ok(i)
        && i < pre.entries@.len() && (pre.entries@[i as int].name@ == name
        || pre.entries@[i as int].name@ == url_sibling_of(name))))
    &&& (!put_blocked(pre.store.objects@, name) && put_succeeds(pre.store.volume, t) ==> {
        &&& appended(pre.store.objects@, post.store.objects@)
        &&& appended(pre.entries@, post.entries@)
        &&& registered_entry(post.entries@.last(), pre.store.path@, t)
        &&& (kind == Kind::UrlLink || t.volume != pre.store.volume ==> stored_copy_of(
            post.store.objects@.last(),
            name,
            t.bytes@,
        ))
        &&& (kind != Kind::UrlLink && t.volume == pre.store.volume ==> stored_link_of(
            post.store.objects@.last(),
            name,
            t.bytes@,
            t.inode,
        ))
        &&& r matches Ok(i) && i as int == pre.entries@.len()
    })
    &&& (!put_blocked(pre.store.objects@, name) && !put_succeeds(pre.store.volume, t) ==>
        service_unchanged(pre, post) && r == Err::<usize, StoreError>(StoreError::CopyFailed))
}

/// A batch is its registrations in order, each starting from the state the
/// previous one left: a failed item never blocks its siblings.
pub open spec fn batch_post(
    pre: RegistryService,
    post: RegistryService,
    ts: Seq<Target>,
    rs: Seq<Result<usize, StoreError>>,
) -> bool
    decreases ts.len(),
{
    if ts.len() == 0 {
        service_unchanged(pre, post) && rs.len() == 0
    } else {
        rs.len() == ts.len() && exists|mid: RegistryService|
            #[trigger] register_post(pre, mid, ts[0], rs[0]) && batch_post(
                mid,
                post,
                ts.skip(1),
                rs.skip(1),
            )
    }
}

/// `register_post` only reads the service through its views, so it carries
/// over between view-equal states.
proof fn lemma_register_post_congruent(
    pre1: RegistryService,
    pre2: RegistryService,
    post: RegistryService,
    t: Target,
    r: Result<usize, StoreError>,
)
    requires
        service_unchanged(pre1, pre2),
        register_post(pre2, post, t, r),
    ensures
        register_post(pre1, post, t, r),
{
}

/// A batch followed by one more registration is the longer batch.
proof fn lemma_batch_post_snoc(
    pre: RegistryService,
    mid: RegistryService,
    post: RegistryService,
    ts: Seq<Target>,
    rs: Seq<Result<usize, StoreError>>,
    t: Target,
    r: Result<usize, StoreError>,
)
    requires
        batch_post(pre, mid, ts, rs),
        rs.len() == ts.len(),
        register_post(mid, post, t, r),
    ensures
        batch_post(pre, post, ts.push(t), rs.push(r)),
    decreases ts.len(),
{
    let ts2 = ts.push(t);
    let rs2 = rs.push(r);
    if ts.len() == 0 {
        lemma_register_post_congruent(pre, mid, post, t, r);
        assert(ts2[0] == t);
        assert(rs2[0] == r);
        assert(ts2.skip(1) =~= Seq::<Target>::empty());
        assert(rs2.skip(1) =~= Seq::<Result<usize, StoreError>>::empty());
        assert(service_unchanged(post, post));
        assert(batch_post(post, post, ts2.skip(1), rs2.skip(1)));
        assert(register_post(pre, post, ts2[0], rs2[0]) && batch_post(
            post,
            post,
            ts2.skip(1),
            rs2.skip(1),
        ));
    } else {
        let m = choose|m: RegistryService|
            #[trigger] register_post(pre, m, ts[0], rs[0]) && batch_post(
                m,
                mid,
                ts.skip(1),
                rs.skip(1),
            );
        lemma_batch_post_snoc(m, mid, post, ts.skip(1), rs.skip(1), t, r);
        assert(ts2.skip(1) =~= ts.skip(1).push(t));
        assert(rs2.skip(1) =~= rs.skip(1).push(r));
        assert(ts2[0] == ts[0]);
        assert(rs2[0] == rs[0]);
        assert(register_post(pre, m, ts2[0], rs2[0]) && batch_post(
            m,
            post,
            ts2.skip(1),
            rs2.skip(1),
        ));
    }
}

impl RegistryService {
    /// The entry list mirrors the stored objects, name for name, in order.
    pub open spec fn wf(&self) -> bool {
        &&& self.store.wf()
        &&& self.entries@.len() == self.store.objects@.len()
        &&& forall|i: int| 0 <= i < self.entries@.len() ==> self.entries@[i].name@
            == self.store.objects@[i].name@
    }

    /// Startup: go from an unwatched directory image straight to the ready
    /// entry list, by a wholesale rebuild.
    pub fn startup(store: EntryStore) -> (s: RegistryService)
        requires
            store.wf(),
        ensures
            s.wf(),
            s.store.path@ == store.path@,
            s.store.volume == store.volume,
            s.store.objects@ == store.objects@,
            rebuild_post(store.objects@, store.path@, s.entries@),
    {
        let entries = store.rebuild();
        RegistryService { store, entries }
    }

    fn find_entry(&self, name: &Vec<u8>, sib: &Vec<u8>) -> (r: Option<usize>)
        ensures
            r matches Some(i) ==> i < self.entries@.len() && (self.entries@[i as int].name@
                == name@ || self.entries@[i as int].name@ == sib@),
            r is None ==> forall|j: int|
                0 <= j < self.entries@.len() ==> self.entries@[j].name@ != name@
                    && self.entries@[j].name@ != sib@,
    {
        let mut i: usize = 0;
        while i < self.entries.len()
            invariant
                i <= self.entries@.len(),
                forall|j: int| 0 <= j < i ==> self.entries@[j].name@ != name@
                    && self.entries@[j].name@ != sib@,
            decreases self.entries@.len() - i,
        {
            if bytes_eq(&self.entries[i].name, name) || bytes_eq(&self.entries[i].name, sib) {
                return Some(i);
            }
            i = i + 1;
        }
        None
    }

    /// Register one dropped file: dedup by name against the store, then
    /// link or copy by kind, and expose the new entry at the next display
    /// index. Re-registration returns the existing index unchanged.
    pub fn register_one(&mut self, target: &Target) -> (r: Result<usize, StoreError>)
        requires
            old(self).wf(),
        ensures
            final(self).wf(),
            register_post(*old(self), *final(self), *target, r),
    {
        let name = base_name(&target.path);
        let sib = url_sibling(&name);
        match self.find_entry(&name, &sib) {
            Some(i) => {
                proof {
                    let objs = self.store.objects@;
                    assert(has_name(objs, self.entries@[i as int].name@)) by {
                        assert(objs[i as int].name@ == self.entries@[i as int].name@);
                    };
                }
                Ok(i)
            },
            None => {
                proof {
                    let objs = self.store.objects@;
                    assert(!has_name(objs, name@)) by {
                        if has_name(objs, name@) {
                            let j = choose|j: int|
                                0 <= j < objs.len() && objs[j].name@ == name@;
                            assert(self.entries@[j].name@ == name@);
                        }
                    };
                    assert(!has_name(objs, sib@)) by {
                        if has_name(objs, sib@) {
                            let j = choose|j: int|
                                0 <= j < objs.len() && objs[j].name@ == sib@;
                            assert(self.entries@[j].name@ == sib@);
                        }
                    };
                }
                let pr = self.store.put(target);
                match pr {
                    Ok(_) => {
                        let stored_path = join_path(&self.store.path, &name);
                        let kind = classify(&name);
                        let e = Entry {
                            name,
                            target_path: clone_bytes(&target.path),
                            stored_path: clone_bytes(&stored_path),
                            icon_source: stored_path,
                            kind,
                            icon: None,
                        };
                        self.entries.push(e);
                        Ok(self.entries.len() - 1)
                    },
                    Err(e) => Err(e),
                }
            },
        }
    }

    /// Register a batch of dropped files, in drop order; one failed item
    /// is reported in place and never blocks the rest of the batch.
    pub fn register_batch(&mut self, targets: &Vec<Target>) -> (rs: Vec<
        Result<usize, StoreError>,
    >)
        requires
            old(self).wf(),
        ensures
            final(self).wf(),
            rs@.len() == targets@.len(),
            batch_post(*old(self), *final(self), targets@, rs@),
    {
        let mut rs: Vec<Result<usize, StoreError>> = Vec::new();
        let mut i: usize = 0;
        proof {
            assert(targets@.take(0) =~= Seq::<Target>::empty());
            assert(rs@.take(0) =~= Seq::<Result<usize, StoreError>>::empty());
        }
        while i < targets.len()
            invariant
                old(self).wf(),
                self.wf(),
                i <= targets@.len(),
                rs@.len() == i,
                batch_post(*old(self), *self, targets@.take(i as int), rs@.take(i as int)),
            decreases targets@.len() - i,
        {
            let ghost prev = *self;
            let ghost rs_pre = rs@;
            let r = self.register_one(&targets[i]);
            rs.push(r);
            proof {
                lemma_batch_post_snoc(
                    *old(self),
                    prev,
                    *self,
                    targets@.take(i as int),
                    rs_pre.take(i as int),
                    targets@[i as int],
                    r,
                );
                assert(targets@.take(i as int + 1) =~= targets@.take(i as int).push(
                    targets@[i as int],
                ));
                assert(rs@.take(i as int + 1) =~= rs_pre.take(i as int).push(r));
            }
            i = i + 1;
        }
        proof {
            assert(targets@.take(targets@.len() as int) =~= targets@);
            assert(rs@.take(rs@.len() as int) =~= rs@);
        }
        rs
    }

    /// Attach an extraction result to an entry: a fresh icon on success;
    /// on failure the entry stays, icon-less — extraction is never fatal.
    pub fn attach_icon(&mut self, index: usize, icon: Result<Vec<u8>, IconError>)
        requires
            old(self).wf(),
            index < old(self).entries@.len(),
        ensures
            final(self).wf(),
            final(self).store.path@ == old(self).store.path@,
            final(self).store.volume == old(self).store.volume,
            final(self).store.objects@ == old(self).store.objects@,
            final(self).entries@.len() == old(self).entries@.len(),
            forall|j: int|
                0 <= j < old(self).entries@.len() && j != index
                    ==> final(self).entries@[j] == old(self).entries@[j],
            ({
                let e = final(self).entries@[index as int];
                let o = old(self).entries@[index as int];
                &&& e.name@ == o.name@
                &&& e.target_path@ == o.target_path@
                &&& e.stored_path@ == o.stored_path@
                &&& e.icon_source@ == o.icon_source@
                &&& e.kind == o.kind
                &&& (icon matches Ok(b) ==> e.icon matches Some(c) && c@ == b@)
                &&& (icon is Err ==> e.icon == o.icon)
            }),
    {
        match icon {
            Ok(b) => {
                self.entries[index].icon = Some(b);
            },
            Err(_) => {},
        }
    }

    /// The path a launch of display index `index` runs: the entry's target
    /// path, never the stored object.
    pub fn launch_target(&self, index: usize) -> (p: Vec<u8>)
        requires
            index < self.entries@.len(),
        ensures
            p@ == self.entries@[index as int].target_path@,
    {
        clone_bytes(&self.entries[index].target_path)
    }

    /// Report a launch: success exactly when the target path still exists
    /// among `world`'s files and starts cleanly; otherwise the failure
    /// names the path, and the entry list is untouched (the receiver is
    /// shared).
    pub fn launch(&self, index: usize, world: &World) -> (r: Result<(), LaunchError>)
        requires
            index < self.entries@.len(),
        ensures
            ({
                let t = self.entries@[index as int].target_path@;
                &&& r is Ok <==> world_launches(world.files@, t)
                &&& (r matches Err(e) ==> e.path@ == t)
            }),
    {
        let target = &self.entries[index].target_path;
        let mut i: usize = 0;
        while i < world.files.len()
            invariant
                index < self.entries@.len(),
                i <= world.files@.len(),
                target@ == self.entries@[index as int].target_path@,
                forall|j: int| 0 <= j < i ==> !(world.files@[j].path@ == target@
                    && world.files@[j].launch_ok),
            decreases world.files@.len() - i,
        {
            if world.files[i].launch_ok && bytes_eq(&world.files[i].path, target) {
                return Ok(());
            }
            i = i + 1;
        }
        Err(LaunchError { path: clone_bytes(target) })
    }
}

} // verus!
