use archeon::{Archeon, Transfer, TransferError};

#[test]
fn ignite() {
    let test_archeon =
        Archeon::ignite("http://some_test_authority/with/path/and/query", "/tmp").unwrap();
    assert!(test_archeon.ignited);
}

#[test]
fn init() {
    let test_uri = "http://some_test_authority/with/path/and/query";
    let test_transfer = Transfer::init(test_uri, "/tmp").unwrap();
    assert_eq!(test_transfer.uri.scheme.as_deref().unwrap(), "http");
    assert_eq!(
        test_transfer.uri.authority.as_deref().unwrap(),
        "some_test_authority",
    );
    assert_eq!(
        test_transfer.uri.path_and_query.as_deref().unwrap(),
        "/with/path/and/query",
    );
}

#[test]
fn init_filename() {
    let test_uri = "http://some_test_authority/with/path/and/query.extension";
    let test_transfer = Transfer::init(test_uri, "/tmp").unwrap();
    assert_eq!(test_transfer.filename, "query.extension");
}

#[test]
fn init_create_path() {
    let test_filename = "some_test_filename.extension";
    let test_path = Transfer::init_create_path(test_filename);
    assert_eq!(test_path, "some_test_filename.extension");
}

#[test]
fn init_temp_dir() {
    let test_temp_dir = Transfer::init_temp_dir("/tmp");
    assert_eq!(test_temp_dir, "/tmp/archeon");
}

#[test]
fn init_file_path() {
    let test_uri = "http://some_test_authority/with/path/and/query.extension";
    let test_transfer = Transfer::init(test_uri, "/tmp").unwrap();
    let test_init_file_path =
        Transfer::init_file_path(&test_transfer.temp_dir, &test_transfer.filename);
    assert_eq!(test_transfer.file_path, "/tmp/archeon/query.extension");
    assert_eq!(test_init_file_path, "/tmp/archeon/query.extension");
}

#[test]
fn init_rejects_malformed_uri() {
    let result = Transfer::init("", "/tmp");
    assert!(matches!(result, Err(TransferError::UriParse)));
}

#[test]
fn init_rejects_uri_without_path_and_query() {
    // An authority-form URI carries no path-and-query to derive a
    // filename from.
    let result = Transfer::init("some_test_authority", "/tmp");
    assert!(matches!(result, Err(TransferError::UriParse)));
}

#[test]
fn ignite_rejects_malformed_uri() {
    let result = Archeon::ignite("", "/tmp");
    assert!(matches!(result, Err(TransferError::UriParse)));
}

#[test]
fn filename_without_slash_is_whole_path_and_query() {
    assert_eq!(archeon::derive_filename("archive.deb"), "archive.deb");
}

#[test]
fn filename_after_trailing_slash_is_empty() {
    assert_eq!(archeon::derive_filename("/with/dir/"), "");
}

#[test]
fn filename_keeps_query_string() {
    assert_eq!(
        archeon::derive_filename("/pkg.deb?token=abc"),
        "pkg.deb?token=abc",
    );
}

#[test]
fn join_path_inserts_separator() {
    assert_eq!(archeon::join_path("/tmp/archeon", "f.deb"), "/tmp/archeon/f.deb");
}

#[test]
fn join_path_keeps_existing_separator() {
    assert_eq!(archeon::join_path("/tmp/archeon/", "f.deb"), "/tmp/archeon/f.deb");
}

#[test]
fn staging_dir_under_temp_root() {
    assert_eq!(archeon::staging_dir("/var/tmp"), "/var/tmp/archeon");
}

#[test]
fn install_command_for_staged_file() {
    let test_uri = "http://some_test_authority/test_launch_file.txt";
    let test_transfer = Transfer::init(test_uri, "/tmp").unwrap();
    assert_eq!(test_transfer.file_path, "/tmp/archeon/test_launch_file.txt");
    let command = test_transfer.install_command();
    assert_eq!(command.program, "dpkg");
    assert_eq!(command.args, vec!["--install", "test_launch_file.txt"]);
    assert_eq!(command.working_dir, "/tmp/archeon");
}
