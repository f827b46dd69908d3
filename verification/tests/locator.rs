use read_manifest::locate::locate;
use read_manifest::manifest_file_name;
use read_manifest::paths::FsPath;

fn path_of(parts: &[&str]) -> FsPath {
    let mut owned: Vec<String> = Vec::new();
    for p in parts {
        owned.push((*p).to_string());
    }
    FsPath::from_parts(owned)
}

#[test]
fn manifest_file_name_is_reserved() {
    assert_eq!(manifest_file_name(), "Cargo.toml");
}

#[test]
fn hint_naming_the_manifest_file_is_kept() {
    let hint = path_of(&["proj", "Cargo.toml"]);
    let cwd = FsPath::root();
    let flags: Vec<bool> = Vec::new();
    let m = locate(Some(hint), &cwd, &flags).unwrap();
    assert_eq!(m.as_path().display(), "/proj/Cargo.toml");
}

#[test]
fn directory_hint_gets_the_file_name_appended_once() {
    let hint = path_of(&["proj"]);
    let cwd = FsPath::root();
    let flags: Vec<bool> = Vec::new();
    let m = locate(Some(hint), &cwd, &flags).unwrap();
    assert_eq!(m.as_path().display(), "/proj/Cargo.toml");
    assert_eq!(m.as_path().parts().len(), 2);
}

#[test]
fn nonexistent_hint_is_not_rejected() {
    // A hint is pure path construction: nothing checks that it exists.
    let hint = path_of(&["no", "such", "dir"]);
    let cwd = FsPath::root();
    let flags: Vec<bool> = Vec::new();
    let m = locate(Some(hint), &cwd, &flags).unwrap();
    assert_eq!(m.as_path().display(), "/no/such/dir/Cargo.toml");
}

#[test]
fn manifest_in_the_working_directory_wins() {
    let cwd = path_of(&["proj"]);
    // A manifest both in the working directory and in an ancestor: the
    // nearest one is taken.
    let flags = vec![true, true];
    let m = locate(None, &cwd, &flags).unwrap();
    assert_eq!(m.as_path().display(), "/proj/Cargo.toml");
}

#[test]
fn nearest_ancestor_manifest_wins() {
    let cwd = path_of(&["a", "b", "c"]);
    let flags = vec![false, false, true, false];
    let m = locate(None, &cwd, &flags).unwrap();
    assert_eq!(m.as_path().display(), "/a/Cargo.toml");
}

#[test]
fn manifest_at_the_filesystem_root_is_found() {
    let cwd = path_of(&["a"]);
    let flags = vec![false, true];
    let m = locate(None, &cwd, &flags).unwrap();
    assert_eq!(m.as_path().display(), "/Cargo.toml");
}

#[test]
fn failed_walk_names_the_starting_directory() {
    let cwd = path_of(&["proj"]);
    let flags = vec![false, false];
    let e = locate(None, &cwd, &flags).unwrap_err();
    assert!(e.start.same_path(&cwd));
    assert_eq!(
        e.message(),
        "could not find `Cargo.toml` in `/proj` or any parent directory"
    );
}

#[test]
fn package_root_is_the_manifest_parent() {
    let hint = path_of(&["proj", "Cargo.toml"]);
    let cwd = FsPath::root();
    let flags: Vec<bool> = Vec::new();
    let m = locate(Some(hint), &cwd, &flags).unwrap();
    assert_eq!(m.package_root().display(), "/proj");
}

#[test]
fn display_renders_the_root_alone() {
    assert_eq!(FsPath::root().display(), "/");
}

#[test]
fn display_separates_components() {
    assert_eq!(path_of(&["a", "b"]).display(), "/a/b");
}

#[test]
fn parent_walks_toward_the_root() {
    let p = path_of(&["a", "b"]);
    assert_eq!(p.parent().display(), "/a");
    assert!(FsPath::root().parent().is_root());
}

#[test]
fn ends_with_manifest_checks_the_last_component() {
    assert!(path_of(&["proj", "Cargo.toml"]).ends_with_manifest());
    assert!(!path_of(&["proj"]).ends_with_manifest());
    assert!(!FsPath::root().ends_with_manifest());
    assert!(!path_of(&["Cargo.toml", "proj"]).ends_with_manifest());
}

#[test]
fn same_path_compares_components() {
    let a = path_of(&["a", "b"]);
    let b = path_of(&["a", "b"]);
    let c = path_of(&["a", "c"]);
    assert!(a.same_path(&b));
    assert!(!a.same_path(&c));
    assert!(!a.same_path(&FsPath::root()));
}
