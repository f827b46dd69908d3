use read_manifest::errors::{PackageError, FAILURE_EXIT_STATUS};
use read_manifest::locate::locate;
use read_manifest::package::{Dependency, PackageDescriptor, Target, TargetKind};
use read_manifest::paths::FsPath;
use read_manifest::source::{
    ColorPreference, ParseFailure, PathSource, ScanEntry, Source, SourceConfig,
};

fn path_of(parts: &[&str]) -> FsPath {
    let mut owned: Vec<String> = Vec::new();
    for p in parts {
        owned.push((*p).to_string());
    }
    FsPath::from_parts(owned)
}

fn config() -> SourceConfig {
    SourceConfig { color: ColorPreference::Auto }
}

fn descriptor(name: &str, version: &str) -> PackageDescriptor {
    PackageDescriptor {
        name: name.to_string(),
        version: version.to_string(),
        dependencies: vec![Dependency {
            name: "serde".to_string(),
            req: "1.0".to_string(),
        }],
        targets: vec![Target {
            name: name.to_string(),
            kind: TargetKind::Library,
        }],
    }
}

fn ok_entry(parts: &[&str], name: &str, version: &str) -> ScanEntry {
    ScanEntry {
        dir: path_of(parts),
        manifest: Ok(descriptor(name, version)),
    }
}

fn bad_entry(parts: &[&str]) -> ScanEntry {
    ScanEntry {
        dir: path_of(parts),
        manifest: Err(ParseFailure {
            message: "expected `=`, found eof".to_string(),
        }),
    }
}

#[test]
fn root_package_before_update_is_a_typed_failure() {
    let s = PathSource::for_path(path_of(&["proj"]), config());
    assert_eq!(s.root_package().unwrap_err(), PackageError::NotReady);
    assert_eq!(s.list_packages().unwrap_err(), PackageError::NotReady);
}

#[test]
fn root_package_returns_the_manifest_at_the_root() {
    let mut s = PathSource::for_path(path_of(&["proj"]), config());
    s.update(vec![
        ok_entry(&["proj"], "alpha", "0.3.1"),
        ok_entry(&["proj", "member"], "beta", "2.0.0"),
    ]);
    let p = s.root_package().unwrap();
    assert_eq!(p.name, "alpha");
    assert_eq!(p.version, "0.3.1");
    assert_eq!(p.dependencies.len(), 1);
    assert_eq!(p.dependencies[0].name, "serde");
    assert_eq!(p.targets[0].kind, TargetKind::Library);
}

#[test]
fn manifest_only_in_a_subdirectory_is_not_the_root_package() {
    let mut s = PathSource::for_path(path_of(&["proj"]), config());
    s.update(vec![ok_entry(&["proj", "member"], "beta", "2.0.0")]);
    assert_eq!(s.root_package().unwrap_err(), PackageError::NotFound);
}

#[test]
fn invalid_manifest_is_distinguished_from_a_missing_one() {
    let mut s = PathSource::for_path(path_of(&["proj"]), config());
    s.update(vec![bad_entry(&["proj"])]);
    let e = s.root_package().unwrap_err();
    assert_eq!(e, PackageError::Invalid);
    assert_ne!(e, PackageError::NotFound);
}

#[test]
fn updating_twice_with_an_unchanged_tree_gives_the_same_answer() {
    let mut s = PathSource::for_path(path_of(&["proj"]), config());
    s.update(vec![ok_entry(&["proj"], "alpha", "0.3.1")]);
    let first = s.root_package().unwrap();
    s.update(vec![ok_entry(&["proj"], "alpha", "0.3.1")]);
    let second = s.root_package().unwrap();
    assert_eq!(first.name, second.name);
    assert_eq!(first.version, second.version);
    assert_eq!(first.dependencies.len(), second.dependencies.len());
}

#[test]
fn update_replaces_the_inventory() {
    let mut s = PathSource::for_path(path_of(&["proj"]), config());
    s.update(vec![bad_entry(&["proj"])]);
    assert_eq!(s.root_package().unwrap_err(), PackageError::Invalid);
    // A later scan that saw a repaired manifest fully replaces the earlier one.
    s.update(vec![ok_entry(&["proj"], "alpha", "0.4.0")]);
    assert_eq!(s.root_package().unwrap().version, "0.4.0");
}

#[test]
fn list_packages_keeps_scan_order_and_drops_failures() {
    let mut s = PathSource::for_path(path_of(&["proj"]), config());
    s.update(vec![
        ok_entry(&["proj"], "alpha", "0.3.1"),
        bad_entry(&["proj", "broken"]),
        ok_entry(&["proj", "member"], "beta", "2.0.0"),
    ]);
    let all = s.list_packages().unwrap();
    assert_eq!(all.len(), 2);
    assert_eq!(all[0].name, "alpha");
    assert_eq!(all[1].name, "beta");
}

#[test]
fn color_flag_words_name_their_preference() {
    assert_eq!(ColorPreference::from_flag(None), Ok(ColorPreference::Auto));
    assert_eq!(
        ColorPreference::from_flag(Some("auto".to_string())),
        Ok(ColorPreference::Auto)
    );
    assert_eq!(
        ColorPreference::from_flag(Some("always".to_string())),
        Ok(ColorPreference::Always)
    );
    assert_eq!(
        ColorPreference::from_flag(Some("never".to_string())),
        Ok(ColorPreference::Never)
    );
}

#[test]
fn unknown_color_flag_word_is_handed_back() {
    assert_eq!(
        ColorPreference::from_flag(Some("sometimes".to_string())),
        Err("sometimes".to_string())
    );
}

#[test]
fn color_preference_is_carried_through_construction() {
    let s = PathSource::for_path(path_of(&["proj"]), SourceConfig { color: ColorPreference::Never });
    assert_eq!(s.color_preference(), ColorPreference::Never);
}

#[test]
fn full_sequence_resolves_and_loads_the_root_package() {
    // The fixed calling sequence: locate, construct, update, query.
    let cwd = path_of(&["proj", "src"]);
    let flags = vec![false, true, false];
    let manifest = locate(None, &cwd, &flags).unwrap();
    assert_eq!(manifest.as_path().display(), "/proj/Cargo.toml");
    let root = manifest.package_root();
    let mut s = PathSource::for_path(root, config());
    s.update(vec![ok_entry(&["proj"], "alpha", "1.2.3")]);
    let p = s.root_package().unwrap();
    assert_eq!(p.name, "alpha");
    assert_eq!(p.version, "1.2.3");
}

#[test]
fn every_failure_maps_to_the_conventional_exit_status() {
    assert_eq!(FAILURE_EXIT_STATUS, 1);
}

#[test]
fn package_error_messages_tell_the_cases_apart() {
    assert_eq!(
        PackageError::NotReady.message(),
        "source was not updated before a package was requested"
    );
    assert_eq!(
        PackageError::NotFound.message(),
        "no manifest found at the source root"
    );
    assert_eq!(
        PackageError::Invalid.message(),
        "the manifest at the source root is invalid"
    );
}
