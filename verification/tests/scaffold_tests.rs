use c_cargo::scaffold::default_manifest;
use c_cargo::scaffold::main_file_path;
use c_cargo::scaffold::manifest_file_path;
use c_cargo::scaffold::scaffold_dirs;

#[test]
fn directories_in_creation_order() {
    let (root, src, target) = scaffold_dirs("demo");
    assert_eq!(root, "demo");
    assert_eq!(src, "demo/src");
    assert_eq!(target, "demo/target");
}

#[test]
fn file_paths() {
    assert_eq!(main_file_path("demo"), "demo/src/main.cpp");
    assert_eq!(manifest_file_path("demo"), "demo/Build.toml");
}

#[test]
fn manifest_names_the_project() {
    assert_eq!(default_manifest("demo", ""), "name = \"demo\"\n\n");
    assert_eq!(
        default_manifest("demo", "compiler = \"g++\""),
        "name = \"demo\"\ncompiler = \"g++\"\n"
    );
}
