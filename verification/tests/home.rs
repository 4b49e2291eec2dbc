use madura_javac::{dist_root, platform_home, platform_image, DistPath};

fn path(names: &[&str]) -> DistPath {
    DistPath { names: names.iter().map(|s| s.as_bytes().to_vec()).collect() }
}

#[test]
fn root_has_no_parent() {
    assert_eq!(DistPath::root().parent(), None);
    assert_eq!(DistPath::root().to_bytes(), b"/".to_vec());
}

#[test]
fn parent_drops_the_last_component() {
    assert_eq!(path(&["usr", "bin"]).parent(), Some(path(&["usr"])));
    assert_eq!(path(&["usr"]).parent(), Some(DistPath::root()));
}

#[test]
fn join_appends_a_component() {
    assert_eq!(path(&["opt"]).join(b"madura".to_vec()), path(&["opt", "madura"]));
    assert_eq!(DistPath::root().join(b"lib".to_vec()), path(&["lib"]));
}

#[test]
fn to_bytes_spells_absolute_paths() {
    assert_eq!(path(&["usr", "bin", "madura"]).to_bytes(), b"/usr/bin/madura".to_vec());
    assert_eq!(path(&["a"]).to_bytes(), b"/a".to_vec());
}

#[test]
fn dist_root_of_installed_binary() {
    assert_eq!(dist_root(path(&["opt", "madura", "bin", "madura"])), Some(path(&["opt", "madura"])));
}

#[test]
fn dist_root_of_dev_tree_binary() {
    assert_eq!(
        dist_root(path(&["work", "madura", "target", "release", "madura"])),
        Some(path(&["work", "madura", "target"]))
    );
}

#[test]
fn dist_root_can_be_the_file_system_root() {
    assert_eq!(dist_root(path(&["bin", "madura"])), Some(DistPath::root()));
}

#[test]
fn dist_root_needs_a_grandparent() {
    assert_eq!(dist_root(path(&["madura"])), None);
    assert_eq!(dist_root(DistPath::root()), None);
}

#[test]
fn platform_image_is_lib_modules_under_the_root() {
    let image = platform_image(path(&["opt", "madura"]));
    assert_eq!(image, path(&["opt", "madura", "lib", "modules"]));
    assert_eq!(image.to_bytes(), b"/opt/madura/lib/modules".to_vec());
    assert_eq!(platform_image(DistPath::root()).to_bytes(), b"/lib/modules".to_vec());
}

#[test]
fn platform_home_when_image_is_present() {
    let exe = path(&["opt", "madura", "bin", "madura"]);
    assert_eq!(platform_home(Some(exe), true), Some(path(&["opt", "madura"])));
}

#[test]
fn platform_home_without_image() {
    let exe = path(&["opt", "madura", "bin", "madura"]);
    assert_eq!(platform_home(Some(exe), false), None);
}

#[test]
fn platform_home_without_canonical_path() {
    assert_eq!(platform_home(None, true), None);
}

#[test]
fn platform_home_for_shallow_binary() {
    assert_eq!(platform_home(Some(path(&["madura"])), true), None);
}
