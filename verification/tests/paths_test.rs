use game_registry::paths::{base_name, bytes_eq, classify, extension, join_path, url_sibling, Kind};

fn v(b: &[u8]) -> Vec<u8> {
    b.to_vec()
}

#[test]
fn base_name_strips_directories() {
    assert_eq!(base_name(&v(b"C:\\games\\doom.exe")), v(b"doom.exe"));
    assert_eq!(base_name(&v(b"/home/u/apps/quake")), v(b"quake"));
    assert_eq!(base_name(&v(b"plain.url")), v(b"plain.url"));
    assert_eq!(base_name(&v(b"")), v(b""));
    assert_eq!(base_name(&v(b"/trailing/")), v(b""));
}

#[test]
fn extension_after_last_dot_only() {
    assert_eq!(extension(&v(b"doom.exe")), Some(v(b"exe")));
    assert_eq!(extension(&v(b"archive.tar.gz")), Some(v(b"gz")));
    assert_eq!(extension(&v(b"noext")), None);
    assert_eq!(extension(&v(b".gitignore")), None);
    assert_eq!(extension(&v(b"trailing.")), Some(v(b"")));
    assert_eq!(extension(&v(b"")), None);
}

#[test]
fn classify_by_extension() {
    assert_eq!(classify(&v(b"site.url")), Kind::UrlLink);
    assert_eq!(classify(&v(b"game.lnk")), Kind::ShortcutLink);
    assert_eq!(classify(&v(b"doom.exe")), Kind::Executable);
    assert_eq!(classify(&v(b"noext")), Kind::Executable);
    assert_eq!(classify(&v(b".url")), Kind::Executable);
    assert_eq!(classify(&v(b"x.URL")), Kind::Executable);
}

#[test]
fn url_sibling_replaces_extension() {
    assert_eq!(url_sibling(&v(b"doom.exe")), v(b"doom.url"));
    assert_eq!(url_sibling(&v(b"noext")), v(b"noext.url"));
    assert_eq!(url_sibling(&v(b"a.b.c")), v(b"a.b.url"));
    assert_eq!(url_sibling(&v(b"site.url")), v(b"site.url"));
}

#[test]
fn join_and_equality() {
    assert_eq!(join_path(&v(b"/cfg/reg"), &v(b"doom.exe")), v(b"/cfg/reg/doom.exe"));
    assert!(bytes_eq(&v(b"abc"), &v(b"abc")));
    assert!(!bytes_eq(&v(b"abc"), &v(b"abd")));
    assert!(!bytes_eq(&v(b"abc"), &v(b"ab")));
}
