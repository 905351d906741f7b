use database_common_lib::actix_extension::{
    assets, index, json_payload_error_response, server_settings,
};
use include_dir::{Dir, DirEntry, File};

fn leak(entries: Vec<DirEntry<'static>>) -> &'static [DirEntry<'static>] {
    Box::leak(entries.into_boxed_slice())
}

fn site() -> Dir<'static> {
    let assets_dir = Dir::new(
        "assets",
        leak(vec![
            DirEntry::File(File::new("assets/app.js", b"console.log(1);")),
            DirEntry::File(File::new("assets/style.css", b"body{}")),
            DirEntry::File(File::new("assets/LICENSE", b"text")),
        ]),
    );
    Dir::new(
        "",
        leak(vec![
            DirEntry::File(File::new("index.html", b"<html></html>")),
            DirEntry::Dir(assets_dir),
        ]),
    )
}

#[test]
fn index_serves_embedded_page() {
    let r = index(&site()).unwrap();
    assert_eq!(r.status, 200);
    assert_eq!(r.content_type, "text/html");
    assert_eq!(r.body, b"<html></html>".to_vec());
}

#[test]
fn index_missing_is_internal_error() {
    let empty = Dir::new("", leak(vec![]));
    let e = index(&empty).unwrap_err();
    assert_eq!(e.status, 500);
    assert_eq!(e.message, "Failed to find index.html");
}

#[test]
fn assets_use_mime_of_extension() {
    let r = assets(&site(), "app.js").unwrap();
    assert_eq!(r.status, 200);
    assert_eq!(r.content_type, actix_files::file_extension_to_mime("js").to_string());
    assert_eq!(r.content_type, "text/javascript");
    assert_eq!(r.body, b"console.log(1);".to_vec());
    let css = assets(&site(), "style.css").unwrap();
    assert_eq!(css.content_type, "text/css");
}

#[test]
fn assets_missing_file_is_internal_error() {
    let e = assets(&site(), "nope.png").unwrap_err();
    assert_eq!(e.status, 500);
    assert_eq!(e.message, "Failed to find nope.png");
}

#[test]
fn assets_without_extension_are_octet_stream() {
    let r = assets(&site(), "LICENSE").unwrap();
    assert_eq!(r.status, 200);
    assert_eq!(r.content_type, "application/octet-stream");
    assert_eq!(r.content_type, actix_files::file_extension_to_mime("").to_string());
    assert_eq!(r.body, b"text".to_vec());
}

#[test]
fn assets_lookup_compares_path_components() {
    let r = assets(&site(), "/app.js").unwrap();
    assert_eq!(r.body, b"console.log(1);".to_vec());
    assert_eq!(r.content_type, "text/javascript");
}

#[test]
fn assets_missing_does_not_answer_with_other_files() {
    let e = assets(&site(), "index.html").unwrap_err();
    assert_eq!(e.status, 500);
    assert_eq!(e.message, "Failed to find index.html");
}

#[test]
fn index_missing_with_other_files_is_internal_error() {
    let only_assets = Dir::new(
        "",
        leak(vec![DirEntry::File(File::new("assets/app.js", b"x"))]),
    );
    let e = index(&only_assets).unwrap_err();
    assert_eq!(e.status, 500);
    assert_eq!(e.message, "Failed to find index.html");
}

#[test]
fn server_settings_for_port() {
    let s = server_settings(8080);
    assert_eq!(s.bind_address, "0.0.0.0:8080");
    assert_eq!(s.workers, 4);
    assert_eq!(s.json_limit, 4096);
    assert_eq!(server_settings(0).bind_address, "0.0.0.0:0");
    let port: u16 = s.bind_address["0.0.0.0:".len()..].parse().unwrap();
    assert_eq!(port, 8080);
}

#[test]
fn json_payload_error_body() {
    let r = json_payload_error_response("Json deserialize error: EOF");
    assert_eq!(r.status, 400);
    assert_eq!(r.content_type, "application/json");
    assert_eq!(r.body, r#"{"error":"Json deserialize error: EOF"}"#);
}
