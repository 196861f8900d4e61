use spa_server::router::{
    candidate_path, content_type_for, extension, resolve, route_fallback, route_primary,
    FileLookup, PrimaryDecision, Response,
};

fn app_js() -> Vec<u8> {
    b"console.log('app');".to_vec()
}

fn index_html() -> Vec<u8> {
    b"<!doctype html><title>app</title>".to_vec()
}

#[test]
fn existing_file_is_served_byte_for_byte() {
    let r = resolve(FileLookup::Found(app_js()), FileLookup::Found(index_html()));
    match r {
        Response::File(bytes) => assert_eq!(bytes, app_js()),
        _ => panic!("expected the file itself"),
    }
}

#[test]
fn missing_path_serves_fallback_document() {
    let r = resolve(FileLookup::Missing, FileLookup::Found(index_html()));
    match r {
        Response::Fallback(bytes) => assert_eq!(bytes, index_html()),
        _ => panic!("expected the fallback document"),
    }
}

#[test]
fn missing_fallback_yields_not_found() {
    let r = resolve(FileLookup::Missing, FileLookup::Missing);
    assert!(matches!(r, Response::NotFound));
}

#[test]
fn unreadable_file_is_a_server_error_not_a_miss() {
    let r = resolve(FileLookup::ReadFailure, FileLookup::Found(index_html()));
    assert!(matches!(r, Response::ServerError));
}

#[test]
fn directory_path_falls_back_to_index() {
    let r = resolve(FileLookup::Directory, FileLookup::Found(index_html()));
    match r {
        Response::Fallback(bytes) => assert_eq!(bytes, index_html()),
        _ => panic!("a directory must be treated as a miss"),
    }
}

#[test]
fn directory_fallback_yields_not_found() {
    let r = resolve(FileLookup::Missing, FileLookup::Directory);
    assert!(matches!(r, Response::NotFound));
}

#[test]
fn unreadable_fallback_is_a_server_error() {
    let r = resolve(FileLookup::Missing, FileLookup::ReadFailure);
    assert!(matches!(r, Response::ServerError));
}

#[test]
fn primary_decision_only_consults_fallback_on_miss() {
    assert!(matches!(
        route_primary(FileLookup::Found(app_js())),
        PrimaryDecision::Serve(_)
    ));
    assert!(matches!(
        route_primary(FileLookup::Missing),
        PrimaryDecision::TryFallback
    ));
    assert!(matches!(
        route_primary(FileLookup::Directory),
        PrimaryDecision::TryFallback
    ));
    assert!(matches!(
        route_primary(FileLookup::ReadFailure),
        PrimaryDecision::Fail
    ));
}

#[test]
fn fallback_lookup_decides_the_final_response() {
    assert!(matches!(
        route_fallback(FileLookup::Found(index_html())),
        Response::Fallback(_)
    ));
    assert!(matches!(route_fallback(FileLookup::Missing), Response::NotFound));
    assert!(matches!(route_fallback(FileLookup::Directory), Response::NotFound));
    assert!(matches!(
        route_fallback(FileLookup::ReadFailure),
        Response::ServerError
    ));
}

#[test]
fn candidate_path_joins_root_and_request_path() {
    assert_eq!(candidate_path("dist", "/app.js"), "dist/app.js");
    assert_eq!(candidate_path("dist", "/nonexistent/route"), "dist/nonexistent/route");
    assert_eq!(candidate_path("dist", "/"), "dist/");
}

#[test]
fn extension_is_taken_from_the_last_segment() {
    assert_eq!(extension("/app.js"), Some("js".to_string()));
    assert_eq!(extension("/archive.tar.gz"), Some("gz".to_string()));
    assert_eq!(extension("/nonexistent/route"), None);
    assert_eq!(extension("/a.b/c"), None);
    assert_eq!(extension("/trailing."), Some("".to_string()));
    assert_eq!(extension(""), None);
}

#[test]
fn content_types_for_common_web_assets() {
    assert_eq!(content_type_for("/index.html"), "text/html");
    assert_eq!(content_type_for("/style.css"), "text/css");
    assert_eq!(content_type_for("/app.js"), "text/javascript");
    assert_eq!(content_type_for("/data.json"), "application/json");
    assert_eq!(content_type_for("/logo.png"), "image/png");
    assert_eq!(content_type_for("/art.svg"), "image/svg+xml");
    assert_eq!(content_type_for("/favicon.ico"), "image/x-icon");
}

#[test]
fn unknown_extensions_are_octet_streams() {
    assert_eq!(content_type_for("/nonexistent/route"), "application/octet-stream");
    assert_eq!(content_type_for("/archive.gz"), "application/octet-stream");
    assert_eq!(content_type_for("/a.b/c"), "application/octet-stream");
    assert_eq!(content_type_for("/trailing."), "application/octet-stream");
}
