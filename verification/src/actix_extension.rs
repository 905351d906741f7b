//! The decisions of the HTTP server: which embedded file answers a request
//! and with which media type, the address the server binds, and the JSON
//! answer to a malformed JSON payload.

use vstd::prelude::*;
use vstd::string::*;

use include_dir::Dir;

use crate::http_error::{opt_string_view, JsonResponse};
use crate::json::{json_string, json_string_literal};
use crate::numbers::{decimal, parse_u16_spec, push_decimal, IntErrorKind, lemma_parse_decimal_roundtrip};

verus! {

// ---------------------------------------------------------------------------
// Embedded files
// ---------------------------------------------------------------------------

#[verifier::external_type_specification]
#[verifier::external_body]
pub struct ExDir<'a>(Dir<'a>);

/// The files that `Dir::get_file` finds by their own path: each file held by
/// `dir` at any depth, whose stored path `p` is such that `dir.get_file(p)`
/// gives that very file, mapped to its contents.
pub uninterp spec fn embedded_files(dir: Dir<'static>) -> Map<Seq<char>, Seq<u8>>;

/// A file found in the embedded directory: its stored path and its contents.
#[derive(Clone, Debug)]
pub struct EmbeddedFile {
    pub path: String,
    pub contents: Vec<u8>,
}

/// Whether the paths `a` and `b`, as `std::path::Path`s, are equal: the
/// equality of `Path`, which compares them component by component (so `a/b`,
/// `a//b` and `a/b/` are equal, `./a` and `a` are not).
pub uninterp spec fn path_matches(a: Seq<char>, b: Seq<char>) -> bool;

/// `k` is a path of `files` that the requested path `q` matches.
pub open spec fn found_key(files: Map<Seq<char>, Seq<u8>>, k: Seq<char>, q: Seq<char>) -> bool {
    files.contains_key(k) && path_matches(k, q)
}

/// Calls `Dir::get_file`, which returns the first entry, in depth-first
/// order, whose path equals `path` as a `Path`, where that entry is a file.
/// `Path` equality is an equivalence, so every path that matches `path`
/// finds that same entry: the found file is one of `embedded_files(dir)`, it
/// is the only one whose path matches `path`, and where no file of
/// `embedded_files(dir)` matches `path` nothing is found.
#[verifier::external_body]
fn dir_get_file(dir: &Dir<'static>, path: &str) -> (r: Option<EmbeddedFile>)
    ensures
        r matches Some(f) ==> embedded_files(*dir).contains_key(f.path@)
            && embedded_files(*dir)[f.path@] == f.contents@
            && path_matches(f.path@, path@),
        r matches Some(f) ==> forall|k: Seq<char>|
            #[trigger] found_key(embedded_files(*dir), k, path@) ==> k == f.path@,
        r is None ==> forall|k: Seq<char>| !#[trigger] found_key(embedded_files(*dir), k, path@),
        embedded_files(*dir).contains_key(path@) ==> r is Some && r.unwrap().path@ == path@,
{
    match dir.get_file(path) {
        Some(file) => Some(EmbeddedFile {
            path: file.path().to_string_lossy().into_owned(),
            contents: file.contents().to_vec(),
        }),
        None => None,
    }
}

/// The extension that `std::path::Path::extension` gives for the path `p`:
/// the part of its file name after the last `.`, where the name has a `.`
/// after its first character.
pub uninterp spec fn path_extension(p: Seq<char>) -> Option<Seq<char>>;

/// Calls `std::path::Path::extension` on `path`; the extension of a path made
/// from a `str` is valid UTF-8, so the text is the extension itself. Claimed
/// only to be a function of `path`, named `path_extension`.
#[verifier::external_body]
fn extension_of(path: &str) -> (r: Option<String>)
    ensures
        opt_string_view(r) == path_extension(path@),
{
    match std::path::Path::new(path).extension() {
        Some(ext) => Some(ext.to_string_lossy().into_owned()),
        None => None,
    }
}

/// The media type, as text, that `actix_files::file_extension_to_mime` gives
/// for the extension `ext` (the first type `mime_guess` knows for it, or
/// `application/octet-stream`).
pub uninterp spec fn extension_mime(ext: Seq<char>) -> Seq<char>;

/// Calls `actix_files::file_extension_to_mime` and writes the media type as
/// text; claimed to be a function of `ext`, named `extension_mime`, and, for
/// the empty extension (for which `mime_guess::from_ext` returns an empty
/// guess and `first_or_octet_stream` its default), `application/octet-stream`.
#[verifier::external_body]
fn mime_for_extension(ext: &str) -> (r: String)
    ensures
        r@ == extension_mime(ext@),
        ext@.len() == 0 ==> r@ == "application/octet-stream"@,
{
    actix_files::file_extension_to_mime(ext).to_string()
}

/// A successful answer with a file's contents.
#[derive(Clone, Debug)]
pub struct FileResponse {
    /// The HTTP status code (200).
    pub status: u16,
    /// The `Content-Type` header.
    pub content_type: String,
    /// The body.
    pub body: Vec<u8>,
}

/// A failed answer: the HTTP status and the message of the error.
#[derive(Clone, Debug)]
pub struct HandlerError {
    pub status: u16,
    pub message: String,
}

/// Answers a request for the application's page with the embedded
/// `index.html`, as HTML; an internal server error (500), `Failed to find
/// index.html`, where the directory holds no file that path matches.
pub fn index(wwwroot: &Dir<'static>) -> (r: Result<FileResponse, HandlerError>)
    ensures
        r is Ok <==> exists|k: Seq<char>| #[trigger] found_key(embedded_files(*wwwroot), k, "index.html"@),
        r matches Ok(resp) ==> {
            &&& resp.status == 200
            &&& resp.content_type@ == "text/html"@
            &&& forall|k: Seq<char>| #[trigger] found_key(embedded_files(*wwwroot), k, "index.html"@)
                ==> resp.body@ == embedded_files(*wwwroot)[k]
        },
        r matches Err(e) ==> e.status == 500 && e.message@ == "Failed to find index.html"@,
        embedded_files(*wwwroot).contains_key("index.html"@) ==> (r matches Ok(resp)
            && resp.body@ == embedded_files(*wwwroot)["index.html"@]),
{
    match dir_get_file(wwwroot, "index.html") {
        Some(file) => {
            assert(found_key(embedded_files(*wwwroot), file.path@, "index.html"@));
            Ok(FileResponse { status: 200, content_type: String::from_str("text/html"), body: file.contents })
        },
        None => Err(HandlerError { status: 500, message: String::from_str("Failed to find index.html") }),
    }
}

/// The media type of the file at `path`: that of its extension, or of the
/// empty extension (`application/octet-stream`) where it has none.
pub open spec fn media_type_of(path: Seq<char>) -> Seq<char> {
    extension_mime(
        match path_extension(path) {
            Some(ext) => ext,
            None => Seq::empty(),
        },
    )
}

/// The answer with the embedded file `file`: its contents, with the media
/// type of its path's extension.
pub fn asset_response(file: &EmbeddedFile) -> (r: FileResponse)
    ensures
        r.status == 200,
        r.content_type@ == media_type_of(file.path@),
        path_extension(file.path@) is None ==> r.content_type@ == "application/octet-stream"@,
        path_extension(file.path@) matches Some(ext) ==> r.content_type@ == extension_mime(ext),
        r.body@ == file.contents@,
{
    let content_type = match extension_of(file.path.as_str()) {
        Some(ext) => mime_for_extension(ext.as_str()),
        None => {
            proof {
                reveal_strlit("");
            }
            assert(""@ =~= Seq::<char>::empty());
            mime_for_extension("")
        },
    };
    FileResponse { status: 200, content_type, body: file.contents.clone() }
}

/// The text `assets/` and the requested file name.
pub open spec fn asset_path(file: Seq<char>) -> Seq<char> {
    "assets/"@ + file
}

/// Answers a request for the asset `file`: looks up `assets/{file}` in the
/// embedded directory and answers with its contents and the media type of
/// its extension; an internal server error (500), `Failed to find {file}`,
/// where the directory holds no file that path matches.
pub fn assets(wwwroot: &Dir<'static>, file: &str) -> (r: Result<FileResponse, HandlerError>)
    ensures
        r is Ok <==> exists|k: Seq<char>| #[trigger] found_key(embedded_files(*wwwroot), k, asset_path(file@)),
        r matches Ok(resp) ==> {
            &&& resp.status == 200
            &&& forall|k: Seq<char>| #[trigger] found_key(embedded_files(*wwwroot), k, asset_path(file@))
                ==> resp.body@ == embedded_files(*wwwroot)[k] && resp.content_type@ == media_type_of(k)
                && (path_extension(k) is None ==> resp.content_type@ == "application/octet-stream"@)
                && (path_extension(k) matches Some(ext) ==> resp.content_type@ == extension_mime(ext))
        },
        r matches Err(e) ==> e.status == 500 && e.message@ == "Failed to find "@ + file@,
        embedded_files(*wwwroot).contains_key(asset_path(file@)) ==> (r matches Ok(resp)
            && resp.body@ == embedded_files(*wwwroot)[asset_path(file@)]
            && resp.content_type@ == media_type_of(asset_path(file@))),
{
    let mut path = String::from_str("assets/");
    path.append(file);
    match dir_get_file(wwwroot, path.as_str()) {
        Some(found) => {
            assert(found_key(embedded_files(*wwwroot), found.path@, asset_path(file@)));
            Ok(asset_response(&found))
        },
        None => {
            let mut message = String::from_str("Failed to find ");
            message.append(file);
            Err(HandlerError { status: 500, message })
        },
    }
}

// ---------------------------------------------------------------------------
// Server settings
// ---------------------------------------------------------------------------

/// How the HTTP server is set up.
#[derive(Clone, Debug)]
pub struct ServerSettings {
    /// The address it listens on: every interface, on the given port.
    pub bind_address: String,
    /// The number of worker threads.
    pub workers: usize,
    /// The largest JSON payload accepted, in bytes.
    pub json_limit: usize,
}

/// The address of the server that listens on `port`.
pub open spec fn bind_address_text(port: u16) -> Seq<char> {
    "0.0.0.0:"@ + decimal(port as nat)
}

/// The settings of the server that listens on `port`: bound to
/// `0.0.0.0:{port}`, with 4 workers and JSON payloads of at most 4096 bytes.
pub fn server_settings(port: u16) -> (r: ServerSettings)
    ensures
        r.bind_address@ == bind_address_text(port),
        r.workers == 4,
        r.json_limit == 4096,
{
    let mut bind_address = String::from_str("0.0.0.0:");
    push_decimal(&mut bind_address, port);
    ServerSettings { bind_address, workers: 4, json_limit: 4096 }
}

/// The answer to a JSON payload that could not be read: a bad request (400)
/// with the JSON body `{"error": message}`.
pub fn json_payload_error_response(message: &str) -> (r: JsonResponse)
    ensures
        r.status == 400,
        r.content_type@ == "application/json"@,
        r.body@ == "{\"error\":"@ + json_string(message@) + "}"@,
{
    let mut body = String::from_str("{\"error\":");
    let quoted = json_string_literal(message);
    body.append(quoted.as_str());
    body.append("}");
    JsonResponse { status: 400, content_type: String::from_str("application/json"), body }
}

/// The media type of a file is that of its own extension, where it has one,
/// and that of the empty extension where it has none.
pub proof fn law_media_type_follows_extension(path: Seq<char>)
    ensures
        path_extension(path) matches Some(ext) ==> media_type_of(path) == extension_mime(ext),
        path_extension(path) is None ==> media_type_of(path) == extension_mime(Seq::<char>::empty()),
{
}

/// The address the server binds names its port: the text after `0.0.0.0:`
/// parses back to the port.
pub proof fn law_bind_address_names_port(port: u16)
    ensures
        parse_u16_spec(bind_address_text(port).skip(8)) == Ok::<int, IntErrorKind>(port as int),
{
    reveal_strlit("0.0.0.0:");
    assert(bind_address_text(port).skip(8) =~= decimal(port as nat));
    lemma_parse_decimal_roundtrip(port);
}

} // verus!
