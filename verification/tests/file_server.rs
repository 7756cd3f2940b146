use rcli::file_response;
use rcli::http_serve::STATUS_INTERNAL_SERVER_ERROR;
use rcli::http_serve::STATUS_NOT_FOUND;
use rcli::http_serve::STATUS_OK;
use rcli::FileProbe;

#[test]
fn test_file_handler() {
    let probe = FileProbe::Content("[package]\nname = \"rcli\"\n".into());
    let (status, content) = file_response("./Cargo.toml", &probe);
    assert_eq!(status, 200);
    assert!(content.trim().starts_with("[package]"));
    assert_eq!(content, "[package]\nname = \"rcli\"\n");
}

#[test]
fn a_missing_file_is_not_found() {
    let response = file_response("./not-exist", &FileProbe::Missing);
    assert_eq!(response, (404, "File ./not-exist not found".to_string()));
}

#[test]
fn an_unreadable_file_is_a_server_error() {
    let probe = FileProbe::Unreadable("Is a directory (os error 21)".into());
    let response = file_response("./fixtures", &probe);
    assert_eq!(response, (500, "Is a directory (os error 21)".to_string()));
}

#[test]
fn the_status_codes() {
    assert_eq!(STATUS_OK, 200);
    assert_eq!(STATUS_NOT_FOUND, 404);
    assert_eq!(STATUS_INTERNAL_SERVER_ERROR, 500);
}
