use c_cargo::errors::Error;
use c_cargo::generate::SourceEntry;
use c_cargo::script::gen_makefile;
use c_cargo::script::update_from_table;

fn file(name: &str) -> SourceEntry {
    SourceEntry::File { name: name.to_string() }
}

fn dir(name: &str, entries: Vec<SourceEntry>) -> SourceEntry {
    SourceEntry::Dir { name: name.to_string(), entries }
}

#[test]
fn empty_tree_links_nothing() {
    let out = gen_makefile("name = \"app\"", &vec![], &vec![]).unwrap();
    assert_eq!(
        out,
        "#Generated by c-cargo\n\nclean : \n\t rm -rf target/*.o target/*.out\n\nall : \n\tclang++ -o target/app.out  \n\nrun : all \n\t./target/app.out "
    );
}

#[test]
fn example_scenario() {
    let tree = vec![file("main.cpp"), dir("util", vec![file("helpers.cpp")])];
    let out = gen_makefile("name = \"app\"", &tree, &vec![]).unwrap();
    let expected = "#Generated by c-cargo\n\nclean : \n\t rm -rf target/*.o target/*.out\n\n\
        target/main.o : src/main.cpp \n\tclang++  -c src/main.cpp -o target/main.o\n\n\
        target/util/helpers.o : src/util/helpers.cpp \n\tclang++  -c src/util/helpers.cpp -o target/util/helpers.o\n\n\
        all : target/main.o target/util/helpers.o \n\tclang++ -o target/app.out  target/main.o target/util/helpers.o \n\nrun : all \n\t./target/app.out ";
    assert_eq!(out, expected);
}

#[test]
fn libraries_join_the_link_line() {
    let tree = vec![file("main.cpp")];
    let libs = vec!["libfoo.a".to_string(), "libbar.a".to_string()];
    let out = gen_makefile("name = \"app\"", &tree, &libs).unwrap();
    assert!(out.contains("all : target/main.o libfoo.a libbar.a \n\t"));
    assert!(out.contains("clang++ -o target/app.out  target/main.o libfoo.a libbar.a \n\n"));
}

#[test]
fn configured_fields_reach_the_script() {
    let manifest = "name = \"demo\"\ncompiler = \"gcc\"\nlinker = \"ld\"\nc_flags = \"-O2\"\nl_flags = \"-lm\"\nrun_args = \"--fast\"\nfile_ext = \".cc\"";
    let tree = vec![file("main.cc")];
    let out = gen_makefile(manifest, &tree, &vec![]).unwrap();
    let expected = "#Generated by c-cargo\n\nclean : \n\t rm -rf target/*.o target/*.out\n\n\
        target/main.o : src/main.cc \n\tgcc -O2 -c src/main.cc -o target/main.o\n\n\
        all : target/main.o \n\tld -o target/demo.out -lm target/main.o \n\nrun : all \n\t./target/demo.out --fast";
    assert_eq!(out, expected);
}

#[test]
fn missing_name_writes_no_script() {
    let r = gen_makefile("compiler = \"g++\"", &vec![file("main.cpp")], &vec![]);
    assert!(matches!(r, Err(Error::BuildTOMLNameMissing)));
}

#[test]
fn unparsable_manifest_is_a_parse_error() {
    let r = gen_makefile("name = = \"app\"", &vec![], &vec![]);
    assert!(matches!(r, Err(Error::BuildTOMLNotParsed(_))));
}

#[test]
fn update_from_table_matches_gen_makefile() {
    let t: toml::Table = "name = \"app\"".parse().unwrap();
    let tree = vec![file("main.cpp")];
    let from_table = update_from_table(&t, &tree, &vec![]).unwrap();
    let from_text = gen_makefile("name = \"app\"", &tree, &vec![]).unwrap();
    assert_eq!(from_table, from_text);
}
