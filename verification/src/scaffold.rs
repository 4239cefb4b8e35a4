//! The skeleton of a new project.
//!
//! A new project is a directory named after the project, holding a source
//! directory, a target directory, a default source file and a default
//! manifest.  This module computes the paths and the manifest text; the
//! caller creates the directories and writes the files.

use vstd::prelude::*;
use vstd::string::StringExecFns;

verus! {

/// The paths of a new project's directories: the project root, its source
/// directory and its target directory, in creation order.
pub fn scaffold_dirs(proj_name: &str) -> (r: (String, String, String))
    ensures
        r.0@ == proj_name@,
        r.1@ == proj_name@ + "/src"@,
        r.2@ == proj_name@ + "/target"@,
{
    (proj_name.to_owned(), proj_name.to_owned().concat("/src"), proj_name.to_owned().concat("/target"))
}

/// The path of a new project's default source file.
pub fn main_file_path(proj_name: &str) -> (r: String)
    ensures
        r@ == proj_name@ + "/src/main.cpp"@,
{
    proj_name.to_owned().concat("/src/main.cpp")
}

/// The path of a new project's manifest.
pub fn manifest_file_path(proj_name: &str) -> (r: String)
    ensures
        r@ == proj_name@ + "/Build.toml"@,
{
    proj_name.to_owned().concat("/Build.toml")
}

/// The text of a new project's manifest: the project name followed by the
/// user's global configuration.
pub fn default_manifest(proj_name: &str, global_config: &str) -> (r: String)
    ensures
        r@ == "name = \""@ + proj_name@ + "\"\n"@ + global_config@ + "\n"@,
{
    let mut r = "name = \"".to_owned();
    r.append(proj_name);
    r.append("\"\n");
    r.append(global_config);
    r.append("\n");
    proof {
        assert(r@ =~= "name = \""@ + proj_name@ + "\"\n"@ + global_config@ + "\n"@);
    }
    r
}

} // verus!
