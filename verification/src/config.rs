//! Configuration resolution.
//!
//! A manifest is key/value text parsed by the `toml` crate.  The resolver
//! reads the string-valued fields of the parsed table and produces a
//! [`BuildConfig`], substituting a documented default for every optional
//! field that is absent or not a string; the mandatory `name` field has no
//! default and its absence is an error.

use vstd::prelude::*;
use crate::errors::Error;

verus! {

// The manifest map type of the `toml` crate, declared so that a parsed
// manifest can stand in signatures.  A value of it is opaque here.
#[verifier::external_type_specification]
#[verifier::external_body]
#[verifier::reject_recursive_types(K)]
#[verifier::reject_recursive_types(V)]
pub struct ExTomlMap<K, V>(toml::map::Map<K, V>);

// The value type of the `toml` crate's map, declared only so that
// `toml::Table` (a map from `String` to `toml::Value`) is accepted above.
#[verifier::external_type_specification]
#[verifier::external_body]
pub struct ExTomlValue(toml::Value);

/// The string-valued fields of a parsed manifest: every key that holds a
/// TOML string is mapped to that string.  A key that is absent, or present
/// with a value of any other TOML type, is outside the domain; the resolver
/// treats the two alike.
pub uninterp spec fn str_entries(t: toml::Table) -> Map<Seq<char>, Seq<char>>;

/// Whether a text is well-formed TOML; parsing depends on the text alone.
pub uninterp spec fn toml_parses(text: Seq<char>) -> bool;

/// The string-valued fields of a well-formed TOML text, as
/// [`str_entries`] reads them from its parsed table.
pub uninterp spec fn parsed_entries(text: Seq<char>) -> Map<Seq<char>, Seq<char>>;

/// Relies on `<toml::Table as core::str::FromStr>::from_str`: parses
/// manifest text into a table — succeeding exactly on well-formed TOML,
/// which is a function of the text alone — with a parse failure rendered
/// through `toml::de::Error`'s `Display` impl.
#[verifier::external_body]
pub(crate) fn parse_table(text: &str) -> (r: Result<toml::Table, String>)
    ensures
        r is Ok <==> toml_parses(text@),
        r is Ok ==> str_entries(r->Ok_0) == parsed_entries(text@),
{
    match text.parse::<toml::Table>() {
        Ok(t) => Ok(t),
        Err(e) => Err(format!("{e}")),
    }
}

/// Relies on `toml::map::Map::get` and `toml::Value::as_str`: looks a key up
/// in the table and hands its value out as a plain string, `None` when the
/// key is absent or its value is not a TOML string.
#[verifier::external_body]
fn get_str(t: &toml::Table, key: &str) -> (r: Option<String>)
    ensures
        r is Some <==> str_entries(*t).contains_key(key@),
        r is Some ==> r->0@ == str_entries(*t)[key@],
{
    match t.get(key) {
        Some(v) => match v.as_str() {
            Some(s) => Some(s.to_owned()),
            None => None,
        },
        None => None,
    }
}

/// The build parameters of one generation pass, immutable once resolved.
pub struct BuildConfig {
    pub compiler: String,
    pub linker: String,
    pub c_flags: String,
    pub l_flags: String,
    pub run_args: String,
    pub file_ext: String,
    pub name: String,
}

/// The value an optional manifest field resolves to: the field's string
/// where the manifest holds one, the default otherwise.
pub open spec fn field_or(m: Map<Seq<char>, Seq<char>>, key: Seq<char>, default: Seq<char>) -> Seq<char> {
    if m.contains_key(key) {
        m[key]
    } else {
        default
    }
}

/// The compiler a manifest resolves to.
pub open spec fn resolved_compiler(m: Map<Seq<char>, Seq<char>>) -> Seq<char> {
    field_or(m, "compiler"@, "clang++"@)
}

/// The linker a manifest resolves to; its default is the resolved compiler.
pub open spec fn resolved_linker(m: Map<Seq<char>, Seq<char>>) -> Seq<char> {
    field_or(m, "linker"@, resolved_compiler(m))
}

/// The compile flags a manifest resolves to.
pub open spec fn resolved_c_flags(m: Map<Seq<char>, Seq<char>>) -> Seq<char> {
    field_or(m, "c_flags"@, ""@)
}

/// The link flags a manifest resolves to.
pub open spec fn resolved_l_flags(m: Map<Seq<char>, Seq<char>>) -> Seq<char> {
    field_or(m, "l_flags"@, ""@)
}

/// The run arguments a manifest resolves to.
pub open spec fn resolved_run_args(m: Map<Seq<char>, Seq<char>>) -> Seq<char> {
    field_or(m, "run_args"@, ""@)
}

/// The source extension a manifest resolves to.
pub open spec fn resolved_file_ext(m: Map<Seq<char>, Seq<char>>) -> Seq<char> {
    field_or(m, "file_ext"@, ".cpp"@)
}

impl BuildConfig {
    /// This configuration is the resolution of the manifest fields `m`:
    /// each optional field carries its manifest value or its default, and
    /// `name` carries the mandatory manifest value.
    pub open spec fn resolves(self, m: Map<Seq<char>, Seq<char>>) -> bool {
        &&& self.compiler@ == resolved_compiler(m)
        &&& self.linker@ == resolved_linker(m)
        &&& self.c_flags@ == resolved_c_flags(m)
        &&& self.l_flags@ == resolved_l_flags(m)
        &&& self.run_args@ == resolved_run_args(m)
        &&& self.file_ext@ == resolved_file_ext(m)
        &&& m.contains_key("name"@)
        &&& self.name@ == m["name"@]
    }
}

/// Resolves a parsed manifest into a [`BuildConfig`], or fails with
/// [`Error::BuildTOMLNameMissing`] exactly when the manifest has no
/// string-valued `name` field.
pub fn resolve_config(t: &toml::Table) -> (r: Result<BuildConfig, Error>)
    ensures
        r is Ok <==> str_entries(*t).contains_key("name"@),
        r is Ok ==> r->Ok_0.resolves(str_entries(*t)),
        r is Err ==> r->Err_0 == Error::BuildTOMLNameMissing,
{
    let compiler = match get_str(t, "compiler") {
        Some(s) => s,
        None => "clang++".to_owned(),
    };
    let linker = match get_str(t, "linker") {
        Some(s) => s,
        None => compiler.clone(),
    };
    let c_flags = match get_str(t, "c_flags") {
        Some(s) => s,
        None => "".to_owned(),
    };
    let l_flags = match get_str(t, "l_flags") {
        Some(s) => s,
        None => "".to_owned(),
    };
    let run_args = match get_str(t, "run_args") {
        Some(s) => s,
        None => "".to_owned(),
    };
    let file_ext = match get_str(t, "file_ext") {
        Some(s) => s,
        None => ".cpp".to_owned(),
    };
    let name = match get_str(t, "name") {
        Some(s) => s,
        None => return Err(Error::BuildTOMLNameMissing),
    };
    Ok(BuildConfig { compiler, linker, c_flags, l_flags, run_args, file_ext, name })
}

/// Law: a manifest that sets only `name` resolves to the documented
/// defaults — compiler `clang++`, linker equal to the compiler, empty
/// compile flags, link flags and run arguments, and extension `.cpp`.
pub proof fn lemma_default_substitution(m: Map<Seq<char>, Seq<char>>)
    requires
        m.dom() =~= set!["name"@],
    ensures
        resolved_compiler(m) == "clang++"@,
        resolved_linker(m) == "clang++"@,
        resolved_c_flags(m) == ""@,
        resolved_l_flags(m) == ""@,
        resolved_run_args(m) == ""@,
        resolved_file_ext(m) == ".cpp"@,
{
    reveal_strlit("name");
    reveal_strlit("compiler");
    reveal_strlit("linker");
    reveal_strlit("c_flags");
    reveal_strlit("l_flags");
    reveal_strlit("run_args");
    reveal_strlit("file_ext");
    assert("name"@.len() == 4);
    assert("compiler"@.len() == 8);
    assert("linker"@.len() == 6);
    assert("c_flags"@.len() == 7);
    assert("l_flags"@.len() == 7);
    assert("run_args"@.len() == 8);
    assert("file_ext"@.len() == 8);
    assert(!m.contains_key("compiler"@));
    assert(!m.contains_key("linker"@));
    assert(!m.contains_key("c_flags"@));
    assert(!m.contains_key("l_flags"@));
    assert(!m.contains_key("run_args"@));
    assert(!m.contains_key("file_ext"@));
}

} // verus!
