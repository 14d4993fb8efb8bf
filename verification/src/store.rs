//! The directory-backed entry store: one stored object per registered
//! entry, with dedup by name, kind-based linking (`.url` files are copied,
//! everything else is hard-linked with a copy fallback), and wholesale
//! reconstruction of the entry list from the directory.
//!
//! The store keeps an in-memory image of the registry directory; the
//! caller performs the matching filesystem operations (see `put_plan`) and
//! drives this image with what it observed.

use vstd::prelude::*;
use crate::paths::{
    Kind, base_name, base_name_of, bytes_eq, classify, clone_bytes, join_of,
    join_path, kind_of_name, url_sibling, url_sibling_of,
};

verus! {

/// A file outside the registry, as the dedup and linking policy sees it:
/// its absolute path, its content, its content identity (`inode`), the
/// volume it lives on (hard links never cross volumes), whether its bytes
/// can be read (a copy fails otherwise), and whether the platform can
/// launch it cleanly.
pub struct Target {
    pub path: Vec<u8>,
    pub bytes: Vec<u8>,
    pub inode: u64,
    pub volume: u64,
    pub readable: bool,
    pub launch_ok: bool,
}

/// What a stored object is on disk: a regular file (a hard link records
/// the content identity it shares with its target; a copy records none),
/// or a symbolic link left in the directory by an outside hand.
pub enum StoredLink {
    File { bytes: Vec<u8>, hard_link_to: Option<u64> },
    Symlink { target: Vec<u8> },
}

/// One filesystem object inside the registry directory.
pub struct StoredObject {
    pub name: Vec<u8>,
    pub link: StoredLink,
}

/// The registry directory: its absolute path, the volume it lives on, and
/// one stored object per entry. The directory listing is the index; no
/// manifest is kept.
pub struct EntryStore {
    pub path: Vec<u8>,
    pub volume: u64,
    pub objects: Vec<StoredObject>,
}

/// One registered entry as exposed to the caller: `target_path` is what a
/// launch runs (the original file for a fresh registration, the stored
/// object for a rebuilt one), `stored_path` the registry's own object, and
/// `icon_source` the file the entry's icon is regenerated from.
pub struct Entry {
    pub name: Vec<u8>,
    pub target_path: Vec<u8>,
    pub stored_path: Vec<u8>,
    pub icon_source: Vec<u8>,
    pub kind: Kind,
    pub icon: Option<Vec<u8>>,
}

#[derive(Clone, Copy, Debug, PartialEq, Eq, Structural)]
pub enum PutOutcome {
    /// The name (or its `.url` sibling) was already stored: nothing changed.
    AlreadyStored,
    /// A hard link to the target was created.
    Linked,
    /// The target's bytes were copied.
    Copied,
}

#[derive(Clone, Copy, Debug, PartialEq, Eq, Structural)]
pub enum StoreError {
    /// The platform has no per-user configuration root.
    StoreUnavailable,
    /// The target's bytes could not be copied (and no hard link was possible).
    CopyFailed,
}

/// What the filesystem must be asked to do for a registration.
#[derive(Clone, Copy, Debug, PartialEq, Eq, Structural)]
pub enum PutPlan {
    /// The destination (or its `.url` sibling) exists: do nothing.
    AlreadyStored,
    /// Copy the target's bytes to the destination.
    CopyBytes,
    /// Hard-link the destination to the target; on failure, copy.
    TryHardLink,
}

pub open spec fn has_name(objs: Seq<StoredObject>, n: Seq<u8>) -> bool {
    exists|i: int| 0 <= i < objs.len() && objs[i].name@ == n
}

/// Names are unique within the directory.
pub open spec fn store_wf(objs: Seq<StoredObject>) -> bool {
    forall|i: int, j: int| 0 <= i < j < objs.len() ==> objs[i].name@ != objs[j].name@
}

/// The dedup check: the destination name or its `.url` sibling is taken.
pub open spec fn put_blocked(objs: Seq<StoredObject>, name: Seq<u8>) -> bool {
    has_name(objs, name) || has_name(objs, url_sibling_of(name))
}

/// Whether a fresh `put` of `t` into a store on `volume` comes out `Ok`.
pub open spec fn put_succeeds(volume: u64, t: Target) -> bool {
    if kind_of_name(base_name_of(t.path@)) == Kind::UrlLink {
        t.readable
    } else {
        t.volume == volume || t.readable
    }
}

/// `post` is `pre` with exactly one object appended.
pub open spec fn appended<T>(pre: Seq<T>, post: Seq<T>) -> bool {
    &&& post.len() == pre.len() + 1
    &&& forall|i: int| 0 <= i < pre.len() ==> post[i] == pre[i]
}

/// `o` is an independent byte copy: same bytes, no shared content identity.
pub open spec fn stored_copy_of(o: StoredObject, name: Seq<u8>, bytes: Seq<u8>) -> bool {
    &&& o.name@ == name
    &&& o.link matches StoredLink::File { bytes: b, hard_link_to: h } && b@ == bytes && h is None
}

/// `o` is a hard link: same bytes and the target's content identity.
pub open spec fn stored_link_of(o: StoredObject, name: Seq<u8>, bytes: Seq<u8>, inode: u64) -> bool {
    &&& o.name@ == name
    &&& o.link matches StoredLink::File { bytes: b, hard_link_to: h } && b@ == bytes && h == Some(
        inode,
    )
}

/// The full before/after relation of `put`: dedup first, then the linking
/// strategy by kind, with the copy fallback when a hard link is impossible.
pub open spec fn put_post(
    pre: Seq<StoredObject>,
    post: Seq<StoredObject>,
    volume: u64,
    t: Target,
    r: Result<PutOutcome, StoreError>,
) -> bool {
    let name = base_name_of(t.path@);
    let kind = kind_of_name(name);
    &&& (put_blocked(pre, name) ==> r == Ok::<PutOutcome, StoreError>(PutOutcome::AlreadyStored)
        && post == pre)
    &&& (!put_blocked(pre, name) && kind == Kind::UrlLink && t.readable ==> r == Ok::<
        PutOutcome,
        StoreError,
    >(PutOutcome::Copied) && appended(pre, post) && stored_copy_of(post.last(), name, t.bytes@))
    &&& (!put_blocked(pre, name) && kind == Kind::UrlLink && !t.readable ==> r == Err::<
        PutOutcome,
        StoreError,
    >(StoreError::CopyFailed) && post == pre)
    &&& (!put_blocked(pre, name) && kind != Kind::UrlLink && t.volume == volume ==> r == Ok::<
        PutOutcome,
        StoreError,
    >(PutOutcome::Linked) && appended(pre, post) && stored_link_of(
        post.last(),
        name,
        t.bytes@,
        t.inode,
    ))
    &&& (!put_blocked(pre, name) && kind != Kind::UrlLink && t.volume != volume && t.readable
        ==> r == Ok::<PutOutcome, StoreError>(PutOutcome::Copied) && appended(pre, post)
        && stored_copy_of(post.last(), name, t.bytes@))
    &&& (!put_blocked(pre, name) && kind != Kind::UrlLink && t.volume != volume && !t.readable
        ==> r == Err::<PutOutcome, StoreError>(StoreError::CopyFailed) && post == pre)
}

/// `e` is the entry that a rebuild derives from the stored object `o`.
pub open spec fn rebuilt_entry(e: Entry, dir_path: Seq<u8>, o: StoredObject) -> bool {
    &&& e.name@ == o.name@
    &&& e.stored_path@ == join_of(dir_path, o.name@)
    &&& e.target_path@ == e.stored_path@
    &&& e.kind == kind_of_name(o.name@)
    &&& e.icon is None
    &&& (o.link matches StoredLink::Symlink { target } ==> e.icon_source@ == target@)
    &&& (o.link matches StoredLink::File { .. } ==> e.icon_source@ == e.stored_path@)
}

/// A rebuild lists one entry per stored object, in directory order.
pub open spec fn rebuild_post(objs: Seq<StoredObject>, dir_path: Seq<u8>, es: Seq<Entry>) -> bool {
    &&& es.len() == objs.len()
    &&& forall|i: int| 0 <= i < objs.len() ==> rebuilt_entry(es[i], dir_path, objs[i])
}

impl EntryStore {
    pub open spec fn wf(&self) -> bool {
        store_wf(self.objects@)
    }

    /// An empty store rooted at `path` on `volume`.
    pub fn new(path: Vec<u8>, volume: u64) -> (s: EntryStore)
        ensures
            s.wf(),
            s.path@ == path@,
            s.volume == volume,
            s.objects@ =~= Seq::<StoredObject>::empty(),
    {
        EntryStore { path, volume, objects: Vec::new() }
    }

    fn find_name(&self, n: &Vec<u8>) -> (r: Option<usize>)
        ensures
            r matches Some(i) ==> i < self.objects@.len() && self.objects@[i as int].name@ == n@,
            r is None ==> !has_name(self.objects@, n@),
    {
        let mut i: usize = 0;
        while i < self.objects.len()
            invariant
                i <= self.objects@.len(),
                forall|j: int| 0 <= j < i ==> self.objects@[j].name@ != n@,
            decreases self.objects@.len() - i,
        {
            if bytes_eq(&self.objects[i].name, n) {
                return Some(i);
            }
            i = i + 1;
        }
        None
    }

    /// What the filesystem must be asked to do to register `target_path`:
    /// the caller performs it, observes what succeeded, and hands the
    /// outcome back through `put`.
    pub fn put_plan(&self, target_path: &Vec<u8>) -> (p: PutPlan)
        ensures
            ({
                let name = base_name_of(target_path@);
                &&& (p == PutPlan::AlreadyStored <==> put_blocked(self.objects@, name))
                &&& (!put_blocked(self.objects@, name) && kind_of_name(name) == Kind::UrlLink ==> p
                    == PutPlan::CopyBytes)
                &&& (!put_blocked(self.objects@, name) && kind_of_name(name) != Kind::UrlLink ==> p
                    == PutPlan::TryHardLink)
            }),
    {
        let name = base_name(target_path);
        let sib = url_sibling(&name);
        if self.find_name(&name).is_some() || self.find_name(&sib).is_some() {
            return PutPlan::AlreadyStored;
        }
        if classify(&name) == Kind::UrlLink {
            PutPlan::CopyBytes
        } else {
            PutPlan::TryHardLink
        }
    }

    /// Register `target`: a no-op when its name (or the name's `.url`
    /// sibling) is already stored; a byte copy for a `.url` target; a hard
    /// link for anything else, falling back to a byte copy when the link
    /// is impossible (cross-volume), and failing only when the copy is.
    pub fn put(&mut self, target: &Target) -> (r: Result<PutOutcome, StoreError>)
        requires
            old(self).wf(),
        ensures
            final(self).wf(),
            final(self).path@ == old(self).path@,
            final(self).volume == old(self).volume,
            put_post(old(self).objects@, final(self).objects@, old(self).volume, *target, r),
    {
        let name = base_name(&target.path);
        let sib = url_sibling(&name);
        if self.find_name(&name).is_some() || self.find_name(&sib).is_some() {
            return Ok(PutOutcome::AlreadyStored);
        }
        assert(!put_blocked(self.objects@, name@));
        let kind = classify(&name);
        let linked: bool = if kind == Kind::UrlLink {
            if !target.readable {
                return Err(StoreError::CopyFailed);
            }
            false
        } else {
            if target.volume != self.volume && !target.readable {
                return Err(StoreError::CopyFailed);
            }
            target.volume == self.volume
        };
        let hard_link_to: Option<u64> = if linked {
            Some(target.inode)
        } else {
            None
        };
        let obj = StoredObject {
            name,
            link: StoredLink::File { bytes: clone_bytes(&target.bytes), hard_link_to },
        };
        let ghost pre = self.objects@;
        self.objects.push(obj);
        proof {
            assert forall|i: int, j: int| 0 <= i < j < self.objects@.len() implies self.objects@[i].name@
                != self.objects@[j].name@ by {
                if j == pre.len() {
                    assert(!has_name(pre, self.objects@[j].name@));
                    assert(self.objects@[i] == pre[i]);
                }
            }
        }
        if linked {
            Ok(PutOutcome::Linked)
        } else {
            Ok(PutOutcome::Copied)
        }
    }

    /// One entry per stored object: the object's own name and path, with
    /// the icon source resolved one level through a symbolic link.
    pub fn rebuild(&self) -> (es: Vec<Entry>)
        ensures
            rebuild_post(self.objects@, self.path@, es@),
    {
        let mut es: Vec<Entry> = Vec::new();
        let mut i: usize = 0;
        while i < self.objects.len()
            invariant
                i <= self.objects@.len(),
                es@.len() == i,
                forall|j: int| 0 <= j < i ==> rebuilt_entry(es@[j], self.path@, self.objects@[j]),
            decreases self.objects@.len() - i,
        {
            let o = &self.objects[i];
            let name = clone_bytes(&o.name);
            let stored_path = join_path(&self.path, &o.name);
            let icon_source: Vec<u8> = match &o.link {
                StoredLink::Symlink { target } => clone_bytes(target),
                StoredLink::File { .. } => clone_bytes(&stored_path),
            };
            let kind = classify(&name);
            let e = Entry {
                name,
                target_path: clone_bytes(&stored_path),
                stored_path,
                icon_source,
                kind,
                icon: None,
            };
            es.push(e);
            i = i + 1;
        }
        es
    }
}

} // verus!
