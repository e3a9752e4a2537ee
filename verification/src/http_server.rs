//! The HTTP side of the service: which request gets which answer.
//!
//! The library decides; its caller listens, looks the files up and sends what
//! is decided here. A request for `/audio/` and an identifier is answered
//! from the audio cache, every other request from the bundled pages.

use crate::audio_manager::{
    asset_file_name, audio_extensions, resolved_name, text_of, AudioError, AudioManager,
};
use crate::text::{has_prefix, starts_with};
use vstd::prelude::*;
use vstd::string::StrSliceExecFns;
use vstd::utf8::encode_utf8;

verus! {

pub const STATUS_OK: u16 = 200;

pub const STATUS_NOT_FOUND: u16 = 404;

pub const STATUS_INTERNAL_SERVER_ERROR: u16 = 500;

/// The media type that `mime_guess::from_path` gives first for a path, and
/// `application/octet-stream` where it gives none. The guess goes by the
/// extension of the path, as `Path::extension` of the standard library cuts
/// it, and by a table that is part of that crate; it ignores case and looks
/// at no file.
pub uninterp spec fn mime_type_of_path(path: Seq<char>) -> Seq<char>;

/// Guesses the media type of a path with `mime_guess::from_path` and takes
/// the first guess, or `application/octet-stream` where there is none, as
/// text.
#[verifier::external_body]
fn guess_mime_type(path: &str) -> (r: String)
    ensures
        r@ == mime_type_of_path(path@),
{
    mime_guess::from_path(path).first_or_octet_stream().to_string()
}

/// What is sent back for a request.
#[derive(Debug, Clone, PartialEq, Eq)]
pub struct HttpResponse {
    pub status: u16,
    pub headers: Vec<(String, String)>,
    pub body: Vec<u8>,
}

/// An `HttpResponse` as plain values.
pub struct ResponseView {
    pub status: int,
    pub headers: Seq<(Seq<char>, Seq<char>)>,
    pub body: Seq<u8>,
}

impl View for HttpResponse {
    type V = ResponseView;

    open spec fn view(&self) -> ResponseView {
        ResponseView {
            status: self.status as int,
            headers: self.headers@.map_values(|h: (String, String)| (h.0@, h.1@)),
            body: self.body@,
        }
    }
}

/// What a request asks for.
#[derive(Debug, Clone, PartialEq, Eq)]
pub enum Route {
    /// The cached sound file with this identifier.
    Audio(String),
    /// The bundled file at this path.
    Asset(String),
}

/// A `Route` as plain values.
pub enum RouteView {
    Audio(Seq<char>),
    Asset(Seq<char>),
}

impl View for Route {
    type V = RouteView;

    open spec fn view(&self) -> RouteView {
        match self {
            Route::Audio(id) => RouteView::Audio(id@),
            Route::Asset(path) => RouteView::Asset(path@),
        }
    }
}

/// How the look-up of a cached sound file ended.
#[derive(Debug, Clone, PartialEq, Eq)]
pub enum AudioOutcome {
    /// The cache itself could not be set up.
    ManagerFailed,
    /// The cache holds no file for the identifier.
    Missing,
    /// The file is there but could not be read.
    Unreadable,
    /// The file at `path` was read.
    Loaded { path: String, content: Vec<u8> },
}

/// An `AudioOutcome` as plain values.
pub enum AudioOutcomeView {
    ManagerFailed,
    Missing,
    Unreadable,
    Loaded { path: Seq<char>, content: Seq<u8> },
}

impl View for AudioOutcome {
    type V = AudioOutcomeView;

    open spec fn view(&self) -> AudioOutcomeView {
        match self {
            AudioOutcome::ManagerFailed => AudioOutcomeView::ManagerFailed,
            AudioOutcome::Missing => AudioOutcomeView::Missing,
            AudioOutcome::Unreadable => AudioOutcomeView::Unreadable,
            AudioOutcome::Loaded { path, content } => AudioOutcomeView::Loaded {
                path: path@,
                content: content@,
            },
        }
    }
}

/// How the look-up of a sound file ended, given the path that the cache
/// resolved its identifier to and what reading the file at that path gave:
/// without a path the file is missing, without content it is unreadable.
pub open spec fn lookup_outcome(resolved: Option<Seq<char>>, content: Option<Seq<u8>>) -> AudioOutcomeView {
    match resolved {
        None => AudioOutcomeView::Missing,
        Some(path) => match content {
            None => AudioOutcomeView::Unreadable,
            Some(content) => AudioOutcomeView::Loaded { path, content },
        },
    }
}

pub open spec fn bytes_of(content: Option<Vec<u8>>) -> Option<Seq<u8>> {
    match content {
        Some(content) => Some(content@),
        None => None,
    }
}

pub open spec fn audio_prefix() -> Seq<char> {
    "/audio/"@
}

/// The route of a request path. A path that begins with `/audio/` asks for
/// the sound file whose identifier follows. Any other path asks for a
/// bundled file: the start page for `/` (and for the empty path), else the
/// path without its first character.
pub open spec fn route_of(path: Seq<char>) -> RouteView {
    if starts_with(path, audio_prefix()) {
        RouteView::Audio(path.subrange(audio_prefix().len() as int, path.len() as int))
    } else if path.len() == 0 || path == "/"@ {
        RouteView::Asset("index.html"@)
    } else {
        RouteView::Asset(path.subrange(1, path.len() as int))
    }
}

pub open spec fn text_response(status: int, text: Seq<char>) -> ResponseView {
    ResponseView { status, headers: Seq::empty(), body: encode_utf8(text) }
}

/// The answer that carries a sound file of the given media type: it may be
/// cached by the client and fetched from any origin.
pub open spec fn sound_response(content_type: Seq<char>, content: Seq<u8>) -> ResponseView {
    ResponseView {
        status: STATUS_OK as int,
        headers: seq![
            ("content-type"@, content_type),
            ("accept-ranges"@, "bytes"@),
            ("cache-control"@, "public, max-age=3600"@),
            ("access-control-allow-origin"@, "*"@),
        ],
        body: content,
    }
}

pub open spec fn page_response(content_type: Seq<char>, content: Seq<u8>) -> ResponseView {
    ResponseView {
        status: STATUS_OK as int,
        headers: seq![("content-type"@, content_type)],
        body: content,
    }
}

/// The answer to a request for a sound file, by how its look-up ended.
pub open spec fn audio_response(outcome: AudioOutcomeView) -> ResponseView {
    match outcome {
        AudioOutcomeView::ManagerFailed => text_response(
            STATUS_INTERNAL_SERVER_ERROR as int,
            "Audio manager error"@,
        ),
        AudioOutcomeView::Missing => text_response(
            STATUS_NOT_FOUND as int,
            "Audio file not found"@,
        ),
        AudioOutcomeView::Unreadable => text_response(
            STATUS_INTERNAL_SERVER_ERROR as int,
            "Failed to read audio file"@,
        ),
        AudioOutcomeView::Loaded { path, content } => sound_response(
            mime_type_of_path(path),
            content,
        ),
    }
}

/// The answer to a request for the bundled file at `file_path`: the file
/// with the media type of its extension if the bundle holds it, else the
/// start page as the fallback of a single-page application, and "not found"
/// if the bundle holds no start page either.
pub open spec fn asset_response(
    file_path: Seq<char>,
    content: Option<Seq<u8>>,
    index: Option<Seq<u8>>,
) -> ResponseView {
    match content {
        Some(content) => page_response(mime_type_of_path(file_path), content),
        None => match index {
            Some(index) => page_response("text/html"@, index),
            None => text_response(STATUS_NOT_FOUND as int, "Not Found"@),
        },
    }
}

#[derive(Debug, Clone, Copy)]
pub struct HttpServer {
    port: u16,
}

impl HttpServer {
    pub closed spec fn spec_port(&self) -> u16 {
        self.port
    }

    pub fn new(port: u16) -> (r: Self)
        ensures
            r.spec_port() == port,
    {
        HttpServer { port }
    }

    /// The local port the server listens on.
    pub fn port(&self) -> (r: u16)
        ensures
            r == self.spec_port(),
    {
        self.port
    }
}

fn header(name: &str, value: &str) -> (r: (String, String))
    ensures
        r.0@ == name@,
        r.1@ == value@,
{
    (name.to_owned(), value.to_owned())
}

fn plain_response(status: u16, text: &str) -> (r: HttpResponse)
    ensures
        r@ == text_response(status as int, text@),
{
    let r = HttpResponse { status, headers: Vec::new(), body: text.as_bytes_vec() };
    assert(r@.headers =~= Seq::empty());
    r
}

/// The media type of the file at `path`, by its extension.
pub fn content_type(path: &str) -> (r: String)
    ensures
        r@ == mime_type_of_path(path@),
{
    guess_mime_type(path)
}

/// Decides what a request path asks for.
pub fn route_request(path: &str) -> (r: Route)
    ensures
        r@ == route_of(path@),
{
    let n = path.unicode_len();
    proof {
        reveal_strlit("/audio/");
        reveal_strlit("/");
    }
    if has_prefix(path, "/audio/") {
        Route::Audio(path.substring_char(7, n).to_owned())
    } else if n == 0 || (n == 1 && path.get_char(0) == '/') {
        assert(n == 1 && path@[0] == '/' ==> path@ =~= "/"@);
        Route::Asset("index.html".to_owned())
    } else {
        Route::Asset(path.substring_char(1, n).to_owned())
    }
}

/// The answer that carries the sound file `content` under the media type
/// `content_type`.
pub fn audio_response_with(content_type: String, content: Vec<u8>) -> (r: HttpResponse)
    ensures
        r@ == sound_response(content_type@, content@),
{
    let mut headers: Vec<(String, String)> = Vec::new();
    headers.push(("content-type".to_owned(), content_type));
    headers.push(header("accept-ranges", "bytes"));
    headers.push(header("cache-control", "public, max-age=3600"));
    headers.push(header("access-control-allow-origin", "*"));
    let r = HttpResponse { status: STATUS_OK, headers, body: content };
    assert(r@.headers =~= sound_response(content_type@, content@).headers);
    r
}

/// The answer that carries the bundled file `content` under the media type
/// `content_type`.
pub fn page_response_with(content_type: String, content: Vec<u8>) -> (r: HttpResponse)
    ensures
        r@ == page_response(content_type@, content@),
{
    let mut headers: Vec<(String, String)> = Vec::new();
    headers.push(("content-type".to_owned(), content_type));
    let r = HttpResponse { status: STATUS_OK, headers, body: content };
    assert(r@.headers =~= page_response(content_type@, content@).headers);
    r
}

impl AudioOutcome {
    /// How a look-up ended. `cache` is what the cache gave for the
    /// identifier: the path it resolved to, none, or the failure to set the
    /// cache up. `content` is what reading the file at that path gave; it
    /// counts only where there is a path.
    pub fn of_lookup(cache: Result<Option<String>, AudioError>, content: Option<Vec<u8>>) -> (r:
        AudioOutcome)
        ensures
            match cache {
                Ok(resolved) => r@ == lookup_outcome(text_of(resolved), bytes_of(content)),
                Err(_) => r@ == AudioOutcomeView::ManagerFailed,
            },
    {
        match cache {
            Err(_) => AudioOutcome::ManagerFailed,
            Ok(None) => AudioOutcome::Missing,
            Ok(Some(path)) => match content {
                None => AudioOutcome::Unreadable,
                Some(content) => AudioOutcome::Loaded { path, content },
            },
        }
    }
}

/// Answers a request for a cached sound file, once its look-up has ended.
pub fn handle_audio_request(outcome: AudioOutcome) -> (r: HttpResponse)
    ensures
        r@ == audio_response(outcome@),
{
    match outcome {
        AudioOutcome::ManagerFailed => plain_response(
            STATUS_INTERNAL_SERVER_ERROR,
            "Audio manager error",
        ),
        AudioOutcome::Missing => plain_response(STATUS_NOT_FOUND, "Audio file not found"),
        AudioOutcome::Unreadable => plain_response(
            STATUS_INTERNAL_SERVER_ERROR,
            "Failed to read audio file",
        ),
        AudioOutcome::Loaded { path, content } => {
            let media_type = content_type(path.as_str());
            audio_response_with(media_type, content)
        },
    }
}

/// Answers a request for the bundled file at `file_path`. `content` is that
/// file as the bundle holds it, `index` the bundle's start page.
pub fn handle_request(file_path: &str, content: Option<Vec<u8>>, index: Option<Vec<u8>>) -> (r:
    HttpResponse)
    ensures
        r@ == asset_response(file_path@, bytes_of(content), bytes_of(index)),
{
    match content {
        Some(content) => {
            let media_type = content_type(file_path);
            page_response_with(media_type, content)
        },
        None => match index {
            Some(index) => page_response_with("text/html".to_owned(), index),
            None => plain_response(STATUS_NOT_FOUND, "Not Found"),
        },
    }
}

/// A path that is `/audio/` followed by an identifier is routed to the
/// sound file of that identifier.
pub proof fn lemma_audio_route(id: Seq<char>)
    ensures
        route_of(audio_prefix() + id) == RouteView::Audio(id),
{
    let path = audio_prefix() + id;
    assert(path.subrange(0, audio_prefix().len() as int) =~= audio_prefix());
    assert(path.subrange(audio_prefix().len() as int, path.len() as int) =~= id);
}

/// A request for a sound file that the cache does not know is answered
/// with "not found". One for a file it knows is answered, once the file is
/// read, with "ok", the file, and the media type of the path under which the
/// file is stored, which ends in one of the known extensions; if the file
/// cannot be read, the answer is a server error.
///
/// `listing` names the files of the cache directory, `content` is what
/// reading the resolved file gave.
pub proof fn lemma_audio_request_answer(
    manager: AudioManager,
    listing: Seq<Seq<char>>,
    id: Seq<char>,
    content: Option<Seq<u8>>,
)
    ensures
        route_of(audio_prefix() + id) == RouteView::Audio(id),
        manager.resolved_path(listing, id) is None ==> audio_response(
            lookup_outcome(manager.resolved_path(listing, id), content),
        ) == text_response(STATUS_NOT_FOUND as int, "Audio file not found"@),
        manager.resolved_path(listing, id) is Some && content is None ==> audio_response(
            lookup_outcome(manager.resolved_path(listing, id), content),
        ).status == STATUS_INTERNAL_SERVER_ERROR,
        manager.resolved_path(listing, id) is Some && content is Some ==> exists|ext: Seq<char>|
            {
                let path = manager.resolved_path(listing, id)->0;
                let answer = audio_response(
                    lookup_outcome(manager.resolved_path(listing, id), content),
                );
                &&& audio_extensions().contains(ext)
                &&& path == manager.path_of(#[trigger] asset_file_name(id, ext))
                &&& answer.status == STATUS_OK
                &&& answer.headers[0] == ("content-type"@, mime_type_of_path(path))
                &&& answer.body == content->0
            },
{
    lemma_audio_route(id);
    if resolved_name(listing, id) is Some {
        let name = resolved_name(listing, id)->0;
        let ext = if name == asset_file_name(id, "mp3"@) {
            "mp3"@
        } else if name == asset_file_name(id, "wav"@) {
            "wav"@
        } else if name == asset_file_name(id, "ogg"@) {
            "ogg"@
        } else {
            "m4a"@
        };
        assert(audio_extensions()[0] == "mp3"@ && audio_extensions()[1] == "wav"@
            && audio_extensions()[2] == "ogg"@ && audio_extensions()[3] == "m4a"@);
        assert(manager.resolved_path(listing, id) == Some(
            manager.path_of(asset_file_name(id, ext)),
        ));
    }
}

} // verus!
