use game_registry::paths::Kind;
use game_registry::platform::resolve_registry_dir;
use game_registry::service::{IconError, RegistryService, World};
use game_registry::store::{EntryStore, StoreError, Target};

fn v(b: &[u8]) -> Vec<u8> {
    b.to_vec()
}

fn target(path: &[u8], bytes: &[u8], inode: u64, volume: u64, readable: bool) -> Target {
    Target {
        path: v(path),
        bytes: v(bytes),
        inode,
        volume,
        readable,
        launch_ok: true,
    }
}

fn service() -> RegistryService {
    RegistryService::startup(EntryStore::new(v(b"/cfg/game_registry"), 1))
}

#[test]
fn register_exposes_entries_in_drop_order() {
    let mut s = service();
    assert_eq!(s.register_one(&target(b"/games/doom.exe", b"MZ", 1, 1, true)), Ok(0));
    assert_eq!(s.register_one(&target(b"/links/site.url", b"[IS]", 2, 1, true)), Ok(1));
    assert_eq!(s.entries.len(), 2);
    assert_eq!(s.entries[0].name, v(b"doom.exe"));
    assert_eq!(s.entries[0].target_path, v(b"/games/doom.exe"));
    assert_eq!(s.entries[0].stored_path, v(b"/cfg/game_registry/doom.exe"));
    assert_eq!(s.entries[0].icon_source, v(b"/cfg/game_registry/doom.exe"));
    assert_eq!(s.entries[0].kind, Kind::Executable);
    assert_eq!(s.entries[1].kind, Kind::UrlLink);
}

#[test]
fn re_registration_returns_the_existing_index() {
    let mut s = service();
    assert_eq!(s.register_one(&target(b"/games/doom.exe", b"MZ", 1, 1, true)), Ok(0));
    assert_eq!(s.register_one(&target(b"/elsewhere/doom.exe", b"ZZ", 9, 1, true)), Ok(0));
    assert_eq!(s.entries.len(), 1);
    assert_eq!(s.entries[0].target_path, v(b"/games/doom.exe"));
}

#[test]
fn batch_isolates_the_failing_item() {
    let mut s = service();
    let batch = vec![
        target(b"/games/doom.exe", b"MZ", 1, 1, true),
        target(b"/mnt/other/broken.url", b"", 2, 2, false),
        target(b"/links/site.url", b"[IS]", 3, 1, true),
    ];
    let rs = s.register_batch(&batch);
    assert_eq!(rs, vec![Ok(0), Err(StoreError::CopyFailed), Ok(1)]);
    assert_eq!(s.entries.len(), 2);
    assert_eq!(s.entries[0].name, v(b"doom.exe"));
    assert_eq!(s.entries[1].name, v(b"site.url"));
}

#[test]
fn rebuild_after_restart_restores_every_entry() {
    let mut s = service();
    let batch = vec![
        target(b"/games/doom.exe", b"MZ", 1, 1, true),
        target(b"/games/quake.exe", b"QQ", 2, 1, true),
        target(b"/links/site.url", b"[IS]", 3, 1, true),
    ];
    let rs = s.register_batch(&batch);
    assert!(rs.iter().all(|r| r.is_ok()));
    let restarted = RegistryService::startup(s.store);
    assert_eq!(restarted.entries.len(), 3);
    assert_eq!(restarted.entries[0].name, v(b"doom.exe"));
    assert_eq!(restarted.entries[1].name, v(b"quake.exe"));
    assert_eq!(restarted.entries[2].name, v(b"site.url"));
    assert_eq!(restarted.entries[0].icon_source, v(b"/cfg/game_registry/doom.exe"));
}

#[test]
fn attach_icon_failure_keeps_the_entry() {
    let mut s = service();
    s.register_one(&target(b"/games/doom.exe", b"MZ", 1, 1, true)).unwrap();
    s.attach_icon(0, Err(IconError::IconUnavailable));
    assert_eq!(s.entries.len(), 1);
    assert_eq!(s.entries[0].icon, None);
    s.attach_icon(0, Ok(v(b"PNG")));
    assert_eq!(s.entries[0].icon, Some(v(b"PNG")));
}

#[test]
fn launch_reports_a_missing_target_and_keeps_the_list() {
    let mut s = service();
    let t = target(b"/games/doom.exe", b"MZ", 1, 1, true);
    s.register_one(&t).unwrap();
    let present = World { files: vec![t] };
    assert!(s.launch(0, &present).is_ok());
    let gone = World { files: vec![target(b"/games/quake.exe", b"QQ", 2, 1, true)] };
    match s.launch(0, &gone) {
        Ok(()) => panic!("expected a launch failure"),
        Err(e) => assert_eq!(e.path, v(b"/games/doom.exe")),
    }
    assert_eq!(s.entries.len(), 1);
    assert_eq!(s.entries[0].name, v(b"doom.exe"));
}

#[test]
fn launch_reports_a_target_that_does_not_start() {
    let mut s = service();
    let mut t = target(b"/games/doom.exe", b"MZ", 1, 1, true);
    s.register_one(&t).unwrap();
    t.launch_ok = false;
    let world = World { files: vec![t] };
    assert!(s.launch(0, &world).is_err());
}

#[test]
fn launch_target_is_the_original_path() {
    let mut s = service();
    s.register_one(&target(b"/games/doom.exe", b"MZ", 1, 1, true)).unwrap();
    assert_eq!(s.launch_target(0), v(b"/games/doom.exe"));
}

#[test]
fn registry_dir_ends_with_the_program_name() {
    match resolve_registry_dir(&v(b"game_registry")) {
        Ok(p) => assert!(p.ends_with(b"/game_registry")),
        Err(e) => assert_eq!(e, StoreError::StoreUnavailable),
    }
}
