//! Build-script assembly.
//!
//! The generated script has four parts: a `clean` target, the per-file
//! compile rules verbatim, an `all` target that links every object path and
//! every discovered library name into the output executable, and a `run`
//! target that executes the output with the configured arguments.

use vstd::prelude::*;
use vstd::string::StringExecFns;
use crate::config::BuildConfig;
use crate::config::parse_table;
use crate::config::parsed_entries;
use crate::config::resolve_config;
use crate::config::resolved_c_flags;
use crate::config::resolved_compiler;
use crate::config::resolved_file_ext;
use crate::config::resolved_l_flags;
use crate::config::resolved_linker;
use crate::config::resolved_run_args;
use crate::config::str_entries;
use crate::config::toml_parses;
use crate::errors::Error;
use crate::generate::SourceEntry;
use crate::generate::entries_stems;
use crate::generate::gen_out;
use crate::generate::obj_paths;
use crate::generate::rules_text;

verus! {

/// A list of names joined into one prerequisite string: every name is
/// followed by a single space.
pub open spec fn joined(items: Seq<Seq<char>>) -> Seq<char>
    decreases items,
{
    if items.len() == 0 {
        Seq::empty()
    } else {
        items[0] + " "@ + joined(items.drop_first())
    }
}

/// Appending a name appends it, space-terminated, to the joined string.
pub proof fn lemma_joined_push(s: Seq<Seq<char>>, x: Seq<char>)
    ensures
        joined(s.push(x)) == joined(s) + (x + " "@),
    decreases s,
{
    if s.len() == 0 {
        assert(s.push(x)[0] == x);
        assert(s.push(x).drop_first() =~= s);
        assert((x + " "@) + joined(s) =~= x + " "@);
        assert(joined(s) + (x + " "@) =~= x + " "@);
    } else {
        assert(s.push(x)[0] == s[0]);
        assert(s.push(x).drop_first() =~= s.drop_first().push(x));
        lemma_joined_push(s.drop_first(), x);
        assert((s[0] + " "@) + (joined(s.drop_first()) + (x + " "@))
            =~= ((s[0] + " "@) + joined(s.drop_first())) + (x + " "@));
    }
}

/// The whole build script: the fixed header with the `clean` target, the
/// rule block verbatim, the `all` target over every object path and
/// library name, and the `run` target.
pub open spec fn makefile_text(
    linker: Seq<char>,
    name: Seq<char>,
    l_flags: Seq<char>,
    run_args: Seq<char>,
    rules: Seq<char>,
    objs: Seq<Seq<char>>,
    libs: Seq<Seq<char>>,
) -> Seq<char> {
    "#Generated by c-cargo\n\nclean : \n\t rm -rf target/*.o target/*.out\n\n"@ + rules + "all : "@
        + joined(objs) + joined(libs) + "\n\t"@ + linker + " -o target/"@ + name + ".out "@ + l_flags
        + " "@ + joined(objs) + joined(libs) + "\n\nrun : all \n\t./target/"@ + name + ".out "@ + run_args
}

/// The build script a manifest and a source tree determine: configuration
/// resolved from the manifest fields, compile rules and object paths
/// generated from the tree, library names taken as given.
pub open spec fn makefile_of(m: Map<Seq<char>, Seq<char>>, entries: Seq<SourceEntry>, libs: Seq<Seq<char>>) -> Seq<char> {
    let stems = entries_stems(entries, Seq::empty(), resolved_file_ext(m));
    makefile_text(
        resolved_linker(m),
        m["name"@],
        resolved_l_flags(m),
        resolved_run_args(m),
        rules_text(stems, resolved_compiler(m), resolved_c_flags(m), resolved_file_ext(m)),
        obj_paths(stems),
        libs,
    )
}

/// Joins names into one space-terminated prerequisite string.
fn join_names(items: &Vec<String>) -> (r: String)
    ensures
        r@ == joined(items.deep_view()),
{
    let mut r = String::new();
    proof {
        assert(items.deep_view().take(0) =~= Seq::<Seq<char>>::empty());
    }
    let mut i: usize = 0;
    while i < items.len()
        invariant
            i <= items.len(),
            items.deep_view().len() == items@.len(),
            r@ == joined(items.deep_view().take(i as int)),
        decreases items@.len() - i,
    {
        r.append(items[i].as_str());
        r.append(" ");
        proof {
            assert(items.deep_view()[i as int] == items@[i as int]@);
            assert(items.deep_view().take(i + 1) =~= items.deep_view().take(i as int).push(items@[i as int]@));
            lemma_joined_push(items.deep_view().take(i as int), items@[i as int]@);
        }
        i += 1;
    }
    proof {
        assert(items.deep_view().take(items@.len() as int) =~= items.deep_view());
    }
    r
}

/// Assembles the build script from a resolved configuration, the rule
/// block, the object paths and the library names.
pub fn assemble(config: &BuildConfig, rules: &str, objs: &Vec<String>, libs: &Vec<String>) -> (r: String)
    ensures
        r@ == makefile_text(
            config.linker@,
            config.name@,
            config.l_flags@,
            config.run_args@,
            rules@,
            objs.deep_view(),
            libs.deep_view(),
        ),
{
    let map = join_names(objs);
    let lib_names = join_names(libs);
    let mut r = "#Generated by c-cargo\n\nclean : \n\t rm -rf target/*.o target/*.out\n\n".to_owned();
    r.append(rules);
    r.append("all : ");
    r.append(map.as_str());
    r.append(lib_names.as_str());
    r.append("\n\t");
    r.append(config.linker.as_str());
    r.append(" -o target/");
    r.append(config.name.as_str());
    r.append(".out ");
    r.append(config.l_flags.as_str());
    r.append(" ");
    r.append(map.as_str());
    r.append(lib_names.as_str());
    r.append("\n\nrun : all \n\t./target/");
    r.append(config.name.as_str());
    r.append(".out ");
    r.append(config.run_args.as_str());
    proof {
        assert(r@ =~= makefile_text(
            config.linker@,
            config.name@,
            config.l_flags@,
            config.run_args@,
            rules@,
            objs.deep_view(),
            libs.deep_view(),
        ));
    }
    r
}

/// Generates the whole build script from a parsed manifest, a scanned
/// source tree and the discovered library names.  Succeeds exactly when
/// the manifest has a string-valued `name` field, and the success is the
/// build script that manifest and tree determine.
pub fn update_from_table(t: &toml::Table, entries: &Vec<SourceEntry>, libs: &Vec<String>) -> (r: Result<String, Error>)
    ensures
        r is Ok <==> str_entries(*t).contains_key("name"@),
        r is Ok ==> r->Ok_0@ == makefile_of(str_entries(*t), entries@, libs.deep_view()),
        r is Err ==> r->Err_0 == Error::BuildTOMLNameMissing,
{
    let config = match resolve_config(t) {
        Ok(c) => c,
        Err(e) => return Err(e),
    };
    let (rules, objs) = gen_out(config.compiler.as_str(), entries, config.c_flags.as_str(), config.file_ext.as_str());
    let out = assemble(&config, rules.as_str(), &objs, libs);
    Ok(out)
}

/// Generates the build script from manifest text.  Succeeds exactly when
/// the text is well-formed TOML whose string fields contain `name`, and
/// the success is the build script those fields and the tree determine;
/// unparsable text yields the parse error, a parsed manifest without a
/// name the missing-name error.
pub fn gen_makefile(manifest_text: &str, entries: &Vec<SourceEntry>, libs: &Vec<String>) -> (r: Result<String, Error>)
    ensures
        r is Ok <==> toml_parses(manifest_text@) && parsed_entries(manifest_text@).contains_key("name"@),
        r is Ok ==> r->Ok_0@ == makefile_of(parsed_entries(manifest_text@), entries@, libs.deep_view()),
        !toml_parses(manifest_text@) ==> r is Err && r->Err_0 is BuildTOMLNotParsed,
        toml_parses(manifest_text@) && !parsed_entries(manifest_text@).contains_key("name"@)
            ==> r is Err && r->Err_0 == Error::BuildTOMLNameMissing,
{
    let t = match parse_table(manifest_text) {
        Ok(t) => t,
        Err(msg) => return Err(Error::BuildTOMLNotParsed(msg)),
    };
    update_from_table(&t, entries, libs)
}

/// Law: an empty source tree contributes no compile rules and no object
/// paths, and the joined prerequisite string of no names is empty — the
/// `all` target of such a script links nothing into the output.
pub proof fn lemma_empty_tree(m: Map<Seq<char>, Seq<char>>, libs: Seq<Seq<char>>)
    ensures
        entries_stems(Seq::empty(), Seq::empty(), resolved_file_ext(m)) == Seq::<Seq<char>>::empty(),
        joined(Seq::empty()) == Seq::<char>::empty(),
        makefile_of(m, Seq::empty(), libs) == makefile_text(
            resolved_linker(m),
            m["name"@],
            resolved_l_flags(m),
            resolved_run_args(m),
            Seq::empty(),
            Seq::empty(),
            libs,
        ),
{
}

} // verus!


