use game_registry::store::{EntryStore, PutOutcome, PutPlan, StoreError, StoredLink, StoredObject, Target};

fn v(b: &[u8]) -> Vec<u8> {
    b.to_vec()
}

fn target(path: &[u8], bytes: &[u8], inode: u64, volume: u64, readable: bool) -> Target {
    Target {
        path: v(path),
        bytes: v(bytes),
        inode,
        volume,
        readable,
        launch_ok: true,
    }
}

fn store() -> EntryStore {
    EntryStore::new(v(b"/cfg/game_registry"), 1)
}

fn object(s: &EntryStore, i: usize) -> &StoredObject {
    &s.objects[i]
}

#[test]
fn put_twice_same_target_is_idempotent() {
    let mut s = store();
    let t = target(b"/games/doom.exe", b"MZ", 7, 1, true);
    assert_eq!(s.put(&t), Ok(PutOutcome::Linked));
    assert_eq!(s.objects.len(), 1);
    assert_eq!(s.put(&t), Ok(PutOutcome::AlreadyStored));
    assert_eq!(s.objects.len(), 1);
    assert_eq!(object(&s, 0).name, v(b"doom.exe"));
}

#[test]
fn put_dedups_by_name_keeping_the_first() {
    let mut s = store();
    let first = target(b"/a/game.exe", b"AA", 1, 1, true);
    let second = target(b"/b/game.exe", b"BB", 2, 1, true);
    assert_eq!(s.put(&first), Ok(PutOutcome::Linked));
    assert_eq!(s.put(&second), Ok(PutOutcome::AlreadyStored));
    assert_eq!(s.objects.len(), 1);
    match &object(&s, 0).link {
        StoredLink::File { bytes, hard_link_to } => {
            assert_eq!(*bytes, v(b"AA"));
            assert_eq!(*hard_link_to, Some(1));
        }
        StoredLink::Symlink { .. } => panic!("expected a file"),
    }
}

#[test]
fn put_copies_url_files_byte_identical() {
    let mut s = store();
    let t = target(b"/links/site.url", b"[InternetShortcut]", 9, 1, true);
    assert_eq!(s.put(&t), Ok(PutOutcome::Copied));
    match &object(&s, 0).link {
        StoredLink::File { bytes, hard_link_to } => {
            assert_eq!(*bytes, v(b"[InternetShortcut]"));
            assert_eq!(*hard_link_to, None);
        }
        StoredLink::Symlink { .. } => panic!("expected a file"),
    }
}

#[test]
fn put_hard_links_on_same_volume() {
    let mut s = store();
    let t = target(b"/games/quake.exe", b"QQ", 42, 1, true);
    assert_eq!(s.put(&t), Ok(PutOutcome::Linked));
    match &object(&s, 0).link {
        StoredLink::File { bytes, hard_link_to } => {
            assert_eq!(*bytes, v(b"QQ"));
            assert_eq!(*hard_link_to, Some(42));
        }
        StoredLink::Symlink { .. } => panic!("expected a file"),
    }
}

#[test]
fn put_falls_back_to_copy_across_volumes() {
    let mut s = store();
    let t = target(b"/mnt/other/quake.exe", b"QQ", 42, 2, true);
    assert_eq!(s.put(&t), Ok(PutOutcome::Copied));
    match &object(&s, 0).link {
        StoredLink::File { bytes, hard_link_to } => {
            assert_eq!(*bytes, v(b"QQ"));
            assert_eq!(*hard_link_to, None);
        }
        StoredLink::Symlink { .. } => panic!("expected a file"),
    }
}

#[test]
fn put_url_sibling_blocks_re_registration() {
    let mut s = store();
    let url = target(b"/links/doom.url", b"[InternetShortcut]", 3, 1, true);
    assert_eq!(s.put(&url), Ok(PutOutcome::Copied));
    let exe = target(b"/games/doom.exe", b"MZ", 4, 1, true);
    assert_eq!(s.put(&exe), Ok(PutOutcome::AlreadyStored));
    assert_eq!(s.objects.len(), 1);
    assert_eq!(object(&s, 0).name, v(b"doom.url"));
}

#[test]
fn put_fails_only_when_no_strategy_is_left() {
    let mut s = store();
    let unreadable_url = target(b"/links/site.url", b"", 5, 1, false);
    assert_eq!(s.put(&unreadable_url), Err(StoreError::CopyFailed));
    let unreadable_cross = target(b"/mnt/other/quake.exe", b"", 6, 2, false);
    assert_eq!(s.put(&unreadable_cross), Err(StoreError::CopyFailed));
    assert_eq!(s.objects.len(), 0);
    let unreadable_same_volume = target(b"/games/quake.exe", b"", 7, 1, false);
    assert_eq!(s.put(&unreadable_same_volume), Ok(PutOutcome::Linked));
    assert_eq!(s.objects.len(), 1);
}

#[test]
fn put_plan_matches_the_policy() {
    let mut s = store();
    assert_eq!(s.put_plan(&v(b"/links/site.url")), PutPlan::CopyBytes);
    assert_eq!(s.put_plan(&v(b"/games/doom.exe")), PutPlan::TryHardLink);
    let t = target(b"/games/doom.exe", b"MZ", 7, 1, true);
    s.put(&t).unwrap();
    assert_eq!(s.put_plan(&v(b"/games/doom.exe")), PutPlan::AlreadyStored);
    assert_eq!(s.put_plan(&v(b"/elsewhere/doom.exe")), PutPlan::AlreadyStored);
}

#[test]
fn rebuild_lists_every_object_resolving_symlinks() {
    let mut s = store();
    s.put(&target(b"/games/doom.exe", b"MZ", 1, 1, true)).unwrap();
    s.put(&target(b"/links/site.url", b"[InternetShortcut]", 2, 1, true)).unwrap();
    s.objects.push(StoredObject {
        name: v(b"quake.lnk"),
        link: StoredLink::Symlink { target: v(b"/games/quake.exe") },
    });
    let es = s.rebuild();
    assert_eq!(es.len(), 3);
    assert_eq!(es[0].name, v(b"doom.exe"));
    assert_eq!(es[0].stored_path, v(b"/cfg/game_registry/doom.exe"));
    assert_eq!(es[0].target_path, v(b"/cfg/game_registry/doom.exe"));
    assert_eq!(es[0].icon_source, v(b"/cfg/game_registry/doom.exe"));
    assert_eq!(es[1].name, v(b"site.url"));
    assert_eq!(es[2].name, v(b"quake.lnk"));
    assert_eq!(es[2].stored_path, v(b"/cfg/game_registry/quake.lnk"));
    assert_eq!(es[2].icon_source, v(b"/games/quake.exe"));
    assert!(es.iter().all(|e| e.icon.is_none()));
}
