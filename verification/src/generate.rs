//! Build-graph generation.
//!
//! A source tree is a value: directories with named entries.  The generator
//! walks it depth-first in entry order and, for every file whose name ends
//! with the configured source extension, emits one compile rule and one
//! object path.  The object path rebases the file's relative path (its
//! *stem*) under `target/` with extension `.o`; the rule compiles the
//! matching `src/` path into it.  Entries of any other shape contribute
//! nothing.

use vstd::prelude::*;
use vstd::string::StringExecFns;
use vstd::string::StrSliceExecFns;

verus! {

/// One discovered entry of the source tree: a directory with its own
/// entries, or a file.  Names are single path components, without
/// separators.
pub enum SourceEntry {
    Dir { name: String, entries: Vec<SourceEntry> },
    File { name: String },
}

/// The file name ends with the source extension.
pub open spec fn is_match(name: Seq<char>, ext: Seq<char>) -> bool {
    ext.len() <= name.len() && name.subrange(name.len() - ext.len(), name.len() as int) == ext
}

/// The file name with the source extension stripped.
pub open spec fn stem_of(name: Seq<char>, ext: Seq<char>) -> Seq<char> {
    name.subrange(0, name.len() - ext.len())
}

/// The stems contributed by one entry, in discovery order: a matching file
/// contributes its own stem under the given relative prefix, a directory
/// contributes the stems of its entries under a prefix extended with its
/// name, any other file contributes nothing.
pub open spec fn entry_stems(e: SourceEntry, prefix: Seq<char>, ext: Seq<char>) -> Seq<Seq<char>>
    decreases e,
{
    match e {
        SourceEntry::File { name } => if is_match(name@, ext) {
            seq![prefix + stem_of(name@, ext)]
        } else {
            Seq::empty()
        },
        SourceEntry::Dir { name, entries } => entries_stems(entries@, prefix + name@ + "/"@, ext),
    }
}

/// The stems contributed by a sequence of entries, spliced in entry order.
pub open spec fn entries_stems(s: Seq<SourceEntry>, prefix: Seq<char>, ext: Seq<char>) -> Seq<Seq<char>>
    decreases s,
{
    if s.len() == 0 {
        Seq::empty()
    } else {
        entry_stems(s[0], prefix, ext) + entries_stems(s.drop_first(), prefix, ext)
    }
}

/// The object path of a stem: the stem rebased under `target/` with the
/// object extension.
pub open spec fn obj_path(stem: Seq<char>) -> Seq<char> {
    "target/"@ + stem + ".o"@
}

/// The source path of a stem: the stem under `src/` with the source
/// extension.
pub open spec fn src_path(stem: Seq<char>, ext: Seq<char>) -> Seq<char> {
    "src/"@ + stem + ext
}

/// The compile rule of one stem: the object path depends on the source
/// path; the recipe invokes the compiler on the source path, writing the
/// object path.
pub open spec fn rule_text(stem: Seq<char>, compiler: Seq<char>, c_flags: Seq<char>, ext: Seq<char>) -> Seq<char> {
    obj_path(stem) + " : "@ + src_path(stem, ext) + " \n\t"@ + compiler + " "@ + c_flags + " -c "@
        + src_path(stem, ext) + " -o "@ + obj_path(stem) + "\n\n"@
}

/// The rule block of a stem list: the concatenation of every stem's
/// compile rule, in order.
pub open spec fn rules_text(stems: Seq<Seq<char>>, compiler: Seq<char>, c_flags: Seq<char>, ext: Seq<char>) -> Seq<char>
    decreases stems,
{
    if stems.len() == 0 {
        Seq::empty()
    } else {
        rule_text(stems[0], compiler, c_flags, ext) + rules_text(stems.drop_first(), compiler, c_flags, ext)
    }
}

/// The object paths of a stem list, in order.
pub open spec fn obj_paths(stems: Seq<Seq<char>>) -> Seq<Seq<char>>
    decreases stems,
{
    if stems.len() == 0 {
        Seq::empty()
    } else {
        seq![obj_path(stems[0])] + obj_paths(stems.drop_first())
    }
}

/// Splicing two entry sequences splices their stems.
pub proof fn lemma_entries_stems_concat(a: Seq<SourceEntry>, b: Seq<SourceEntry>, prefix: Seq<char>, ext: Seq<char>)
    ensures
        entries_stems(a + b, prefix, ext) == entries_stems(a, prefix, ext) + entries_stems(b, prefix, ext),
    decreases a,
{
    if a.len() == 0 {
        assert(a + b =~= b);
        assert(entries_stems(a, prefix, ext) + entries_stems(b, prefix, ext) =~= entries_stems(b, prefix, ext));
    } else {
        assert((a + b)[0] == a[0]);
        assert((a + b).drop_first() =~= a.drop_first() + b);
        lemma_entries_stems_concat(a.drop_first(), b, prefix, ext);
        assert(entry_stems(a[0], prefix, ext) + (entries_stems(a.drop_first(), prefix, ext) + entries_stems(b, prefix, ext))
            =~= (entry_stems(a[0], prefix, ext) + entries_stems(a.drop_first(), prefix, ext)) + entries_stems(b, prefix, ext));
    }
}

/// Appending one entry appends its stems.
pub proof fn lemma_entries_stems_push(s: Seq<SourceEntry>, e: SourceEntry, prefix: Seq<char>, ext: Seq<char>)
    ensures
        entries_stems(s.push(e), prefix, ext) == entries_stems(s, prefix, ext) + entry_stems(e, prefix, ext),
{
    assert(s.push(e) =~= s + seq![e]);
    lemma_entries_stems_concat(s, seq![e], prefix, ext);
    assert(seq![e][0] == e);
    assert(seq![e].drop_first() =~= Seq::<SourceEntry>::empty());
    assert(entries_stems(seq![e], prefix, ext) == entry_stems(e, prefix, ext) + entries_stems(Seq::<SourceEntry>::empty(), prefix, ext));
    assert(entry_stems(e, prefix, ext) + Seq::<Seq<char>>::empty() =~= entry_stems(e, prefix, ext));
}

/// Splicing two stem lists concatenates their rule blocks.
pub proof fn lemma_rules_text_concat(a: Seq<Seq<char>>, b: Seq<Seq<char>>, compiler: Seq<char>, c_flags: Seq<char>, ext: Seq<char>)
    ensures
        rules_text(a + b, compiler, c_flags, ext) == rules_text(a, compiler, c_flags, ext) + rules_text(b, compiler, c_flags, ext),
    decreases a,
{
    if a.len() == 0 {
        assert(a + b =~= b);
        assert(rules_text(a, compiler, c_flags, ext) + rules_text(b, compiler, c_flags, ext) =~= rules_text(b, compiler, c_flags, ext));
    } else {
        assert((a + b)[0] == a[0]);
        assert((a + b).drop_first() =~= a.drop_first() + b);
        lemma_rules_text_concat(a.drop_first(), b, compiler, c_flags, ext);
        assert(rule_text(a[0], compiler, c_flags, ext) + (rules_text(a.drop_first(), compiler, c_flags, ext) + rules_text(b, compiler, c_flags, ext))
            =~= (rule_text(a[0], compiler, c_flags, ext) + rules_text(a.drop_first(), compiler, c_flags, ext)) + rules_text(b, compiler, c_flags, ext));
    }
}

/// Splicing two stem lists splices their object paths.
pub proof fn lemma_obj_paths_concat(a: Seq<Seq<char>>, b: Seq<Seq<char>>)
    ensures
        obj_paths(a + b) == obj_paths(a) + obj_paths(b),
    decreases a,
{
    if a.len() == 0 {
        assert(a + b =~= b);
        assert(obj_paths(a) + obj_paths(b) =~= obj_paths(b));
    } else {
        assert((a + b)[0] == a[0]);
        assert((a + b).drop_first() =~= a.drop_first() + b);
        lemma_obj_paths_concat(a.drop_first(), b);
        assert(seq![obj_path(a[0])] + (obj_paths(a.drop_first()) + obj_paths(b))
            =~= (seq![obj_path(a[0])] + obj_paths(a.drop_first())) + obj_paths(b));
    }
}

/// A stem list has as many object paths as stems.
pub proof fn lemma_obj_paths_len(stems: Seq<Seq<char>>)
    ensures
        obj_paths(stems).len() == stems.len(),
    decreases stems,
{
    if stems.len() > 0 {
        lemma_obj_paths_len(stems.drop_first());
    }
}

/// The number of matching source files under one entry.
pub open spec fn matching_count(e: SourceEntry, ext: Seq<char>) -> nat
    decreases e,
{
    match e {
        SourceEntry::File { name } => if is_match(name@, ext) {
            1nat
        } else {
            0nat
        },
        SourceEntry::Dir { name, entries } => matching_count_seq(entries@, ext),
    }
}

/// The number of matching source files under a sequence of entries.
pub open spec fn matching_count_seq(s: Seq<SourceEntry>, ext: Seq<char>) -> nat
    decreases s,
{
    if s.len() == 0 {
        0nat
    } else {
        matching_count(s[0], ext) + matching_count_seq(s.drop_first(), ext)
    }
}

/// Law: an entry with N matching source files under it contributes exactly
/// N stems — so N compile rules and N object paths — and every other file
/// or directory contributes none.
pub proof fn lemma_entry_stem_count(e: SourceEntry, prefix: Seq<char>, ext: Seq<char>)
    ensures
        entry_stems(e, prefix, ext).len() == matching_count(e, ext),
    decreases e,
{
    match e {
        SourceEntry::File { name } => {},
        SourceEntry::Dir { name, entries } => {
            lemma_entries_stem_count(entries@, prefix + name@ + "/"@, ext);
        },
    }
}

/// Law: a sequence of entries with N matching source files under it
/// contributes exactly N stems.
pub proof fn lemma_entries_stem_count(s: Seq<SourceEntry>, prefix: Seq<char>, ext: Seq<char>)
    ensures
        entries_stems(s, prefix, ext).len() == matching_count_seq(s, ext),
    decreases s,
{
    if s.len() > 0 {
        lemma_entry_stem_count(s[0], prefix, ext);
        lemma_entries_stem_count(s.drop_first(), prefix, ext);
    }
}

/// Law: generation is a function of the tree and the parameters alone —
/// any two results that meet the generator's contract for the same
/// unmodified tree are byte-identical, rule text and object list both.
pub proof fn lemma_generation_reproducible(
    text1: Seq<char>,
    objs1: Seq<Seq<char>>,
    text2: Seq<char>,
    objs2: Seq<Seq<char>>,
    s: Seq<SourceEntry>,
    compiler: Seq<char>,
    c_flags: Seq<char>,
    ext: Seq<char>,
)
    requires
        text1 == rules_text(entries_stems(s, Seq::empty(), ext), compiler, c_flags, ext),
        objs1 == obj_paths(entries_stems(s, Seq::empty(), ext)),
        text2 == rules_text(entries_stems(s, Seq::empty(), ext), compiler, c_flags, ext),
        objs2 == obj_paths(entries_stems(s, Seq::empty(), ext)),
    ensures
        text1 == text2,
        objs1 == objs2,
{
}

/// Law (round trip): for a stem — the relative source path without its
/// extension — the object path is the stem rebased under `target/` with
/// extension `.o`, the source path is the stem under `src/` with the
/// source extension, and the compile rule references both verbatim.
pub proof fn lemma_round_trip(stem: Seq<char>, compiler: Seq<char>, c_flags: Seq<char>, ext: Seq<char>)
    ensures
        obj_path(stem) == "target/"@ + stem + ".o"@,
        src_path(stem, ext) == "src/"@ + stem + ext,
        exists|pre: Seq<char>, post: Seq<char>|
            rule_text(stem, compiler, c_flags, ext) == pre + src_path(stem, ext) + post,
        exists|pre: Seq<char>, post: Seq<char>|
            rule_text(stem, compiler, c_flags, ext) == pre + obj_path(stem) + post,
{
    let src_pre = obj_path(stem) + " : "@;
    let src_post = " \n\t"@ + compiler + " "@ + c_flags + " -c "@ + src_path(stem, ext) + " -o "@
        + obj_path(stem) + "\n\n"@;
    assert(rule_text(stem, compiler, c_flags, ext) == src_pre + src_path(stem, ext) + src_post) by {
        assert(rule_text(stem, compiler, c_flags, ext) =~= src_pre + src_path(stem, ext) + src_post);
    }
    let obj_pre = Seq::<char>::empty();
    let obj_post = " : "@ + src_path(stem, ext) + " \n\t"@ + compiler + " "@ + c_flags + " -c "@
        + src_path(stem, ext) + " -o "@ + obj_path(stem) + "\n\n"@;
    assert(rule_text(stem, compiler, c_flags, ext) == obj_pre + obj_path(stem) + obj_post) by {
        assert(rule_text(stem, compiler, c_flags, ext) =~= obj_pre + obj_path(stem) + obj_post);
    }
}

/// Whether the file name ends with the source extension, compared
/// character by character.
fn ends_with_ext(name: &str, ext: &str) -> (r: bool)
    ensures
        r == is_match(name@, ext@),
{
    let n = name.unicode_len();
    let m = ext.unicode_len();
    if m > n {
        return false;
    }
    let mut i: usize = 0;
    while i < m
        invariant
            n == name@.len(),
            m == ext@.len(),
            m <= n,
            i <= m,
            forall|j: int| 0 <= j < i ==> name@[n - m + j] == ext@[j],
        decreases m - i,
    {
        if name.get_char(n - m + i) != ext.get_char(i) {
            proof {
                assert(name@.subrange(n - m, n as int)[i as int] == name@[n - m + i]);
                assert(!is_match(name@, ext@));
            }
            return false;
        }
        i += 1;
    }
    proof {
        assert(name@.subrange(n - m, n as int) =~= ext@);
    }
    true
}

/// Renders the object path of a stem.
fn obj_path_exec(stem: &str) -> (r: String)
    ensures
        r@ == obj_path(stem@),
{
    "target/".to_owned().concat(stem).concat(".o")
}

/// Renders the source path of a stem.
fn src_path_exec(stem: &str, ext: &str) -> (r: String)
    ensures
        r@ == src_path(stem@, ext@),
{
    "src/".to_owned().concat(stem).concat(ext)
}

/// Renders the compile rule of one stem.
fn rule_text_exec(stem: &str, compiler: &str, c_flags: &str, ext: &str) -> (r: String)
    ensures
        r@ == rule_text(stem@, compiler@, c_flags@, ext@),
{
    let obj = obj_path_exec(stem);
    let src = src_path_exec(stem, ext);
    let mut r = obj.clone();
    r.append(" : ");
    r.append(src.as_str());
    r.append(" \n\t");
    r.append(compiler);
    r.append(" ");
    r.append(c_flags);
    r.append(" -c ");
    r.append(src.as_str());
    r.append(" -o ");
    r.append(obj.as_str());
    r.append("\n\n");
    proof {
        assert(r@ =~= rule_text(stem@, compiler@, c_flags@, ext@));
    }
    r
}

/// Generates the rule block and object paths contributed by one entry.
fn gen_entry(compiler: &str, c_flags: &str, file_ext: &str, prefix: &str, e: &SourceEntry) -> (r: (String, Vec<String>))
    ensures
        r.0@ == rules_text(entry_stems(*e, prefix@, file_ext@), compiler@, c_flags@, file_ext@),
        r.1.deep_view() == obj_paths(entry_stems(*e, prefix@, file_ext@)),
    decreases *e,
{
    match e {
        SourceEntry::File { name } => {
            if ends_with_ext(name.as_str(), file_ext) {
                let n = name.as_str().unicode_len();
                let m = file_ext.unicode_len();
                let stem_tail = name.as_str().substring_char(0, n - m);
                let stem = prefix.to_owned().concat(stem_tail);
                let text = rule_text_exec(stem.as_str(), compiler, c_flags, file_ext);
                let obj = obj_path_exec(stem.as_str());
                let mut objs: Vec<String> = Vec::new();
                objs.push(obj);
                proof {
                    let stems = entry_stems(*e, prefix@, file_ext@);
                    assert(stems =~= seq![stem@]);
                    assert(seq![stem@][0] == stem@);
                    assert(seq![stem@].drop_first() =~= Seq::<Seq<char>>::empty());
                    assert(rules_text(seq![stem@], compiler@, c_flags@, file_ext@)
                        == rule_text(stem@, compiler@, c_flags@, file_ext@)
                            + rules_text(Seq::<Seq<char>>::empty(), compiler@, c_flags@, file_ext@));
                    assert(rule_text(stem@, compiler@, c_flags@, file_ext@) + Seq::<char>::empty()
                        =~= rule_text(stem@, compiler@, c_flags@, file_ext@));
                    assert(seq![obj_path(stem@)] + obj_paths(Seq::<Seq<char>>::empty()) =~= seq![obj_path(stem@)]);
                    assert(objs.deep_view() =~= seq![obj_path(stem@)]);
                }
                (text, objs)
            } else {
                let objs: Vec<String> = Vec::new();
                proof {
                    assert(objs.deep_view() =~= Seq::<Seq<char>>::empty());
                }
                (String::new(), objs)
            }
        },
        SourceEntry::Dir { name, entries } => {
            let sub_prefix = prefix.to_owned().concat(name.as_str()).concat("/");
            gen_entries(compiler, c_flags, file_ext, sub_prefix.as_str(), entries)
        },
    }
}

/// Generates the spliced rule block and object paths of a sequence of
/// entries, in entry order.
fn gen_entries(compiler: &str, c_flags: &str, file_ext: &str, prefix: &str, entries: &Vec<SourceEntry>) -> (r: (String, Vec<String>))
    ensures
        r.0@ == rules_text(entries_stems(entries@, prefix@, file_ext@), compiler@, c_flags@, file_ext@),
        r.1.deep_view() == obj_paths(entries_stems(entries@, prefix@, file_ext@)),
    decreases entries@,
{
    let mut out = String::new();
    let mut out_vec: Vec<String> = Vec::new();
    proof {
        assert(entries@.take(0) =~= Seq::<SourceEntry>::empty());
        assert(out_vec.deep_view() =~= Seq::<Seq<char>>::empty());
    }
    let mut i: usize = 0;
    while i < entries.len()
        invariant
            i <= entries.len(),
            out@ == rules_text(entries_stems(entries@.take(i as int), prefix@, file_ext@), compiler@, c_flags@, file_ext@),
            out_vec.deep_view() == obj_paths(entries_stems(entries@.take(i as int), prefix@, file_ext@)),
        decreases entries@.len() - i,
    {
        let (push_text, mut push_objs) = gen_entry(compiler, c_flags, file_ext, prefix, &entries[i]);
        out.append(push_text.as_str());
        out_vec.append(&mut push_objs);
        proof {
            let stems_so_far = entries_stems(entries@.take(i as int), prefix@, file_ext@);
            let new_stems = entry_stems(entries@[i as int], prefix@, file_ext@);
            assert(entries@.take(i + 1) =~= entries@.take(i as int).push(entries@[i as int]));
            lemma_entries_stems_push(entries@.take(i as int), entries@[i as int], prefix@, file_ext@);
            lemma_rules_text_concat(stems_so_far, new_stems, compiler@, c_flags@, file_ext@);
            lemma_obj_paths_concat(stems_so_far, new_stems);
            assert(out_vec.deep_view() =~= obj_paths(stems_so_far) + obj_paths(new_stems));
        }
        i += 1;
    }
    proof {
        assert(entries@.take(entries@.len() as int) =~= entries@);
    }
    (out, out_vec)
}

/// Generates the build graph of a source tree: the concatenated compile
/// rules of every matching file, depth-first in entry order, and the
/// ordered list of their object paths.
pub fn gen_out(compiler: &str, entries: &Vec<SourceEntry>, c_flags: &str, file_ext: &str) -> (r: (String, Vec<String>))
    ensures
        r.0@ == rules_text(entries_stems(entries@, Seq::empty(), file_ext@), compiler@, c_flags@, file_ext@),
        r.1.deep_view() == obj_paths(entries_stems(entries@, Seq::empty(), file_ext@)),
{
    proof {
        reveal_strlit("");
        assert(""@ =~= Seq::<char>::empty());
    }
    gen_entries(compiler, c_flags, file_ext, "", entries)
}

} // verus!
