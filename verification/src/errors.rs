//! The error taxonomy of the crate.
//!
//! Every failure of an action is terminal: callers report the message and
//! stop.  Variants that wrap an underlying failure carry its rendered text.

use vstd::prelude::*;
use vstd::string::StringExecFns;

verus! {

/// What can go wrong while scaffolding a project or generating its build
/// script.
#[derive(Debug, PartialEq, Eq)]
pub enum Error {
    /// A project directory could not be created.
    DirCreationIssue(String),
    /// A generated file could not be written.
    FileWritingIssue(String),
    /// No manifest was found where one was expected.
    ProjNotInitialized,
    /// The manifest file could not be read.
    BuildTOMLNotRead(String),
    /// The manifest text could not be parsed.
    BuildTOMLNotParsed(String),
    /// The manifest lacks the mandatory project name.
    BuildTOMLNameMissing,
    /// A directory of the source tree could not be listed.
    ScanFailed(String),
    /// A path in the source tree is not valid text.
    PathEncodingFailed,
    /// Any other underlying failure.
    Other(String),
}

impl Error {
    /// The user-facing message of this error.
    pub open spec fn message_spec(self) -> Seq<char> {
        match self {
            Error::DirCreationIssue(d) => "Error creating directory \n\t\t"@ + d@,
            Error::FileWritingIssue(d) => "Error writing to a file \n\t\t"@ + d@,
            Error::ProjNotInitialized => "Project is not initialized \n\t\trun \"c-cargo new {proj_name}\""@,
            Error::BuildTOMLNotRead(d) => "Error reading Build.toml \n\t\t"@ + d@,
            Error::BuildTOMLNotParsed(d) => "Error parsing Build.toml \n\t\t"@ + d@,
            Error::BuildTOMLNameMissing => "Add a name to your Build.toml"@,
            Error::ScanFailed(d) => "Error scanning the source tree \n\t\t"@ + d@,
            Error::PathEncodingFailed => "Error decoding a source path as text"@,
            Error::Other(d) => "Unknown error \n\t\t"@ + d@,
        }
    }

    /// Renders the message a caller shows for this error.
    pub fn message(&self) -> (r: String)
        ensures
            r@ == self.message_spec(),
    {
        match self {
            Error::DirCreationIssue(d) => "Error creating directory \n\t\t".to_owned().concat(d.as_str()),
            Error::FileWritingIssue(d) => "Error writing to a file \n\t\t".to_owned().concat(d.as_str()),
            Error::ProjNotInitialized => "Project is not initialized \n\t\trun \"c-cargo new {proj_name}\"".to_owned(),
            Error::BuildTOMLNotRead(d) => "Error reading Build.toml \n\t\t".to_owned().concat(d.as_str()),
            Error::BuildTOMLNotParsed(d) => "Error parsing Build.toml \n\t\t".to_owned().concat(d.as_str()),
            Error::BuildTOMLNameMissing => "Add a name to your Build.toml".to_owned(),
            Error::ScanFailed(d) => "Error scanning the source tree \n\t\t".to_owned().concat(d.as_str()),
            Error::PathEncodingFailed => "Error decoding a source path as text".to_owned(),
            Error::Other(d) => "Unknown error \n\t\t".to_owned().concat(d.as_str()),
        }
    }
}

} // verus!
