use c_cargo::errors::Error;

#[test]
fn dir_creation_message() {
    let e = Error::DirCreationIssue("denied".to_string());
    assert_eq!(e.message(), "Error creating directory \n\t\tdenied");
}

#[test]
fn file_writing_message() {
    let e = Error::FileWritingIssue("full".to_string());
    assert_eq!(e.message(), "Error writing to a file \n\t\tfull");
}

#[test]
fn not_initialized_message() {
    let e = Error::ProjNotInitialized;
    assert_eq!(e.message(), "Project is not initialized \n\t\trun \"c-cargo new {proj_name}\"");
}

#[test]
fn manifest_not_read_message() {
    let e = Error::BuildTOMLNotRead("gone".to_string());
    assert_eq!(e.message(), "Error reading Build.toml \n\t\tgone");
}

#[test]
fn manifest_not_parsed_message() {
    let e = Error::BuildTOMLNotParsed("bad".to_string());
    assert_eq!(e.message(), "Error parsing Build.toml \n\t\tbad");
}

#[test]
fn name_missing_message() {
    let e = Error::BuildTOMLNameMissing;
    assert_eq!(e.message(), "Add a name to your Build.toml");
}

#[test]
fn scan_failed_message() {
    let e = Error::ScanFailed("denied".to_string());
    assert_eq!(e.message(), "Error scanning the source tree \n\t\tdenied");
}

#[test]
fn path_encoding_message() {
    let e = Error::PathEncodingFailed;
    assert_eq!(e.message(), "Error decoding a source path as text");
}

#[test]
fn other_message() {
    let e = Error::Other("odd".to_string());
    assert_eq!(e.message(), "Unknown error \n\t\todd");
}
