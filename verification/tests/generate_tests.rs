use c_cargo::generate::SourceEntry;
use c_cargo::generate::gen_out;

fn file(name: &str) -> SourceEntry {
    SourceEntry::File { name: name.to_string() }
}

fn dir(name: &str, entries: Vec<SourceEntry>) -> SourceEntry {
    SourceEntry::Dir { name: name.to_string(), entries }
}

#[test]
fn rule_count_matches_matching_files() {
    let tree = vec![
        file("main.cpp"),
        file("README.md"),
        dir("docs", vec![file("notes.txt")]),
        dir("util", vec![file("helpers.cpp"), file("helpers.hpp")]),
        dir("empty", vec![]),
        file("extra.cpp"),
    ];
    let (rules, objs) = gen_out("clang++", &tree, "", ".cpp");
    assert_eq!(objs.len(), 3);
    assert_eq!(
        objs,
        vec![
            "target/main.o".to_string(),
            "target/util/helpers.o".to_string(),
            "target/extra.o".to_string(),
        ]
    );
    let expected = "target/main.o : src/main.cpp \n\tclang++  -c src/main.cpp -o target/main.o\n\n\
        target/util/helpers.o : src/util/helpers.cpp \n\tclang++  -c src/util/helpers.cpp -o target/util/helpers.o\n\n\
        target/extra.o : src/extra.cpp \n\tclang++  -c src/extra.cpp -o target/extra.o\n\n";
    assert_eq!(rules, expected);
}

#[test]
fn generator_is_reproducible() {
    let tree = vec![file("main.cpp"), dir("util", vec![file("helpers.cpp")])];
    let first = gen_out("clang++", &tree, "-O2", ".cpp");
    let second = gen_out("clang++", &tree, "-O2", ".cpp");
    assert_eq!(first.0, second.0);
    assert_eq!(first.1, second.1);
}

#[test]
fn nested_path_round_trip() {
    let tree = vec![dir("a", vec![dir("b", vec![file("c.ext")])])];
    let (rules, objs) = gen_out("cc", &tree, "", ".ext");
    assert_eq!(objs, vec!["target/a/b/c.o".to_string()]);
    assert_eq!(
        rules,
        "target/a/b/c.o : src/a/b/c.ext \n\tcc  -c src/a/b/c.ext -o target/a/b/c.o\n\n"
    );
    assert!(rules.contains("src/a/b/c.ext"));
}

#[test]
fn empty_tree_yields_nothing() {
    let tree: Vec<SourceEntry> = vec![];
    let (rules, objs) = gen_out("clang++", &tree, "", ".cpp");
    assert_eq!(rules, "");
    assert!(objs.is_empty());
}

#[test]
fn non_matching_entries_are_ignored() {
    let tree = vec![file("main.rs"), dir("sub", vec![file("thing.txt")])];
    let (rules, objs) = gen_out("clang++", &tree, "", ".cpp");
    assert_eq!(rules, "");
    assert!(objs.is_empty());
}

#[test]
fn suffix_match_is_case_sensitive() {
    let tree = vec![file("Main.CPP")];
    let (rules, objs) = gen_out("clang++", &tree, "", ".cpp");
    assert_eq!(rules, "");
    assert!(objs.is_empty());
}

#[test]
fn file_named_exactly_like_extension_matches() {
    let tree = vec![file(".cpp")];
    let (_, objs) = gen_out("clang++", &tree, "", ".cpp");
    assert_eq!(objs, vec!["target/.o".to_string()]);
}

#[test]
fn compile_flags_appear_in_each_rule() {
    let tree = vec![file("main.cpp")];
    let (rules, _) = gen_out("g++", &tree, "-Wall -O2", ".cpp");
    assert_eq!(
        rules,
        "target/main.o : src/main.cpp \n\tg++ -Wall -O2 -c src/main.cpp -o target/main.o\n\n"
    );
}
