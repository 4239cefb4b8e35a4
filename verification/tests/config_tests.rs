use c_cargo::config::resolve_config;
use c_cargo::errors::Error;

fn table(text: &str) -> toml::Table {
    text.parse().unwrap()
}

#[test]
fn defaults_with_only_name() {
    let c = resolve_config(&table("name = \"app\"")).unwrap();
    assert_eq!(c.compiler, "clang++");
    assert_eq!(c.linker, "clang++");
    assert_eq!(c.c_flags, "");
    assert_eq!(c.l_flags, "");
    assert_eq!(c.run_args, "");
    assert_eq!(c.file_ext, ".cpp");
    assert_eq!(c.name, "app");
}

#[test]
fn linker_defaults_to_compiler() {
    let c = resolve_config(&table("name = \"app\"\ncompiler = \"g++\"")).unwrap();
    assert_eq!(c.compiler, "g++");
    assert_eq!(c.linker, "g++");
}

#[test]
fn explicit_fields_override_defaults() {
    let text = "name = \"demo\"\ncompiler = \"gcc\"\nlinker = \"ld\"\nc_flags = \"-O2\"\nl_flags = \"-lm\"\nrun_args = \"--fast\"\nfile_ext = \".cc\"";
    let c = resolve_config(&table(text)).unwrap();
    assert_eq!(c.compiler, "gcc");
    assert_eq!(c.linker, "ld");
    assert_eq!(c.c_flags, "-O2");
    assert_eq!(c.l_flags, "-lm");
    assert_eq!(c.run_args, "--fast");
    assert_eq!(c.file_ext, ".cc");
    assert_eq!(c.name, "demo");
}

#[test]
fn missing_name_is_an_error() {
    let r = resolve_config(&table("compiler = \"g++\""));
    assert!(matches!(r, Err(Error::BuildTOMLNameMissing)));
}

#[test]
fn non_string_name_is_an_error() {
    let r = resolve_config(&table("name = 3"));
    assert!(matches!(r, Err(Error::BuildTOMLNameMissing)));
}

#[test]
fn non_string_optional_field_falls_back() {
    let c = resolve_config(&table("name = \"app\"\ncompiler = 3\nc_flags = false")).unwrap();
    assert_eq!(c.compiler, "clang++");
    assert_eq!(c.c_flags, "");
}
