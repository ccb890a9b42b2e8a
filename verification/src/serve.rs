//! The file-serving decisions: request-path normalization, the HTML test,
//! rendering a file's bytes into a response body (splicing the reload-client
//! payload into HTML), and the mapping of serving outcomes to HTTP replies.
//!
//! The filesystem itself stays outside: a [`Directory`] holds the names and
//! bytes the serving logic reads, so every decision here is checked for any
//! directory contents.

use vstd::prelude::*;

use crate::errors::ServeError;
use crate::inject::{inject_before_the_end_of_body, inject_spec};
use vstd::slice::slice_to_vec;
use vstd::utf8::{decode_utf8, encode_utf8, valid_utf8};

verus! {

/// A served file: its name (relative to the served root) and its bytes.
pub struct DirFile {
    pub name: String,
    pub data: Vec<u8>,
}

/// A snapshot of the servable file tree: the plain values the serving
/// logic reads of the filesystem.
pub struct Directory {
    pub files: Vec<DirFile>,
}

/// The request path after normalization: the empty path and `/` stand for
/// `index.html`, and a leading separator is stripped before the name is
/// looked up under the served root.
pub open spec fn normalized_spec(raw: Seq<char>) -> Seq<char> {
    if raw.len() == 0 || (raw.len() == 1 && raw[0] == '/') {
        "index.html"@
    } else if raw[0] == '/' {
        raw.subrange(1, raw.len() as int)
    } else {
        raw
    }
}

/// Normalizes a request path per [`normalized_spec`].
pub fn normalize_request_path(raw: &str) -> (r: String)
    ensures
        r@ == normalized_spec(raw@),
{
    let n = raw.unicode_len();
    if n == 0 || (n == 1 && raw.get_char(0) == '/') {
        "index.html".to_owned()
    } else if raw.get_char(0) == '/' {
        raw.substring_char(1, n).to_owned()
    } else {
        raw.to_owned()
    }
}

/// The suffix that marks a path as HTML.
pub open spec fn html_suffix() -> Seq<char> {
    seq!['.', 'h', 't', 'm', 'l']
}

/// The path names an HTML resource: it ends in `.html`.
pub open spec fn is_html(p: Seq<char>) -> bool {
    p.len() >= 5 && p.subrange(p.len() - 5, p.len() as int) == html_suffix()
}

/// Decides whether a normalized path names an HTML resource.
pub fn is_html_path(p: &str) -> (b: bool)
    ensures
        b == is_html(p@),
{
    let n = p.unicode_len();
    if n < 5 {
        return false;
    }
    let b = p.get_char(n - 5) == '.' && p.get_char(n - 4) == 'h' && p.get_char(n - 3) == 't'
        && p.get_char(n - 2) == 'm' && p.get_char(n - 1) == 'l';
    proof {
        let v = p@;
        let s = v.subrange(v.len() - 5, v.len() as int);
        assert(html_suffix()[0] == '.' && html_suffix()[1] == 'h' && html_suffix()[2] == 't'
            && html_suffix()[3] == 'm' && html_suffix()[4] == 'l');
        assert(s[0] == v[v.len() - 5] && s[1] == v[v.len() - 4] && s[2] == v[v.len() - 3] && s[3]
            == v[v.len() - 2] && s[4] == v[v.len() - 1]);
        if b {
            assert(s =~= html_suffix());
        } else {
            assert(s != html_suffix());
        }
    }
    b
}

/// The first entry of `files` with the given name, if any.
pub open spec fn lookup_spec(files: Seq<DirFile>, name: Seq<char>) -> Option<Seq<u8>>
    decreases files.len(),
{
    if files.len() == 0 {
        None
    } else if files[0].name@ == name {
        Some(files[0].data@)
    } else {
        lookup_spec(files.drop_first(), name)
    }
}

/// Finds the bytes of the entry named `name`, if the directory holds one.
fn lookup(files: &Vec<DirFile>, name: &String) -> (r: Option<Vec<u8>>)
    ensures
        match (r, lookup_spec(files@, name@)) {
            (Some(b), Some(sb)) => b@ == sb,
            (None, None) => true,
            _ => false,
        },
{
    let n = files.len();
    let mut idx: usize = 0;
    proof {
        assert(files@.subrange(0, n as int) =~= files@);
    }
    while idx < n
        invariant
            n == files@.len(),
            idx <= n,
            lookup_spec(files@, name@) == lookup_spec(
                files@.subrange(idx as int, n as int),
                name@,
            ),
        decreases n - idx,
    {
        proof {
            let rest = files@.subrange(idx as int, n as int);
            assert(rest[0] == files@[idx as int]);
            assert(rest.drop_first() =~= files@.subrange(idx as int + 1, n as int));
        }
        if files[idx].name.eq(name) {
            return Some(slice_to_vec(files[idx].data.as_slice()));
        }
        idx = idx + 1;
    }
    None
}

/// Relies on `String::from_utf8`: it succeeds exactly on valid UTF-8 input,
/// and the returned string is the one whose UTF-8 encoding is that input.
#[verifier::external_body]
fn string_from_utf8(bytes: Vec<u8>) -> (r: Option<String>)
    ensures
        r is Some <==> valid_utf8(bytes@),
        r matches Some(s) ==> encode_utf8(s@) == bytes@,
{
    String::from_utf8(bytes).ok()
}

/// The response body for one file: HTML bytes are decoded, the payload is
/// spliced in before the first closing-body marker, and the result is
/// re-encoded; any other file's bytes pass through unchanged. HTML bytes
/// that are not valid UTF-8 are an encoding failure.
pub open spec fn render_spec(path: Seq<char>, data: Seq<u8>, payload: Seq<char>) -> Result<
    Seq<u8>,
    ServeError,
> {
    if is_html(path) {
        if valid_utf8(data) {
            Ok(encode_utf8(inject_spec(decode_utf8(data), payload)))
        } else {
            Err(ServeError::InvalidEncoding)
        }
    } else {
        Ok(data)
    }
}

/// The exec rendering result agrees with the spec-level one.
pub open spec fn matches_render(r: Result<Vec<u8>, ServeError>, s: Result<
    Seq<u8>,
    ServeError,
>) -> bool {
    match (r, s) {
        (Ok(b), Ok(sb)) => b@ == sb,
        (Err(e), Err(se)) => e == se,
        _ => false,
    }
}

/// Renders one file's bytes into a response body per [`render_spec`].
pub fn render_file(path: &str, data: Vec<u8>, payload: &str) -> (r: Result<Vec<u8>, ServeError>)
    ensures
        matches_render(r, render_spec(path@, data@, payload@)),
{
    if is_html_path(path) {
        let ghost data_view = data@;
        match string_from_utf8(data) {
            None => Err(ServeError::InvalidEncoding),
            Some(text) => {
                proof {
                    vstd::utf8::encode_utf8_decode_utf8(text@);
                }
                match inject_before_the_end_of_body(text.as_str(), payload) {
                    Ok(injected) => Ok(injected.as_str().as_bytes_vec()),
                    Err(e) => Err(e),
                }
            },
        }
    } else {
        Ok(data)
    }
}

/// The serving outcome for a request: the rendered body of the named file,
/// `None` when the directory holds no file of that (normalized) name, or a
/// rendering error.
pub open spec fn serve_spec(files: Seq<DirFile>, raw: Seq<char>, payload: Seq<char>) -> Result<
    Option<Seq<u8>>,
    ServeError,
> {
    match lookup_spec(files, normalized_spec(raw)) {
        None => Ok(None),
        Some(data) => match render_spec(normalized_spec(raw), data, payload) {
            Ok(b) => Ok(Some(b)),
            Err(e) => Err(e),
        },
    }
}

/// The exec serving result agrees with the spec-level one.
pub open spec fn matches_serve(r: Result<Option<Vec<u8>>, ServeError>, s: Result<
    Option<Seq<u8>>,
    ServeError,
>) -> bool {
    match (r, s) {
        (Ok(Some(b)), Ok(Some(sb))) => b@ == sb,
        (Ok(None), Ok(None)) => true,
        (Err(e), Err(se)) => e == se,
        _ => false,
    }
}

/// Serves one request against a directory snapshot: normalizes the request
/// path, looks the file up, and renders it per [`render_spec`]. `Ok(None)`
/// is the not-found outcome, distinct from every error.
pub fn serve_file(dir: &Directory, path_in_request: &str, payload: &str) -> (r: Result<
    Option<Vec<u8>>,
    ServeError,
>)
    ensures
        matches_serve(r, serve_spec(dir.files@, path_in_request@, payload@)),
{
    let name = normalize_request_path(path_in_request);
    match lookup(&dir.files, &name) {
        None => Ok(None),
        Some(data) => match render_file(name.as_str(), data, payload) {
            Ok(b) => Ok(Some(b)),
            Err(e) => Err(e),
        },
    }
}

/// UTF-8 encoding distributes over concatenation of character sequences.
pub proof fn lemma_encode_utf8_concat(a: Seq<char>, b: Seq<char>)
    ensures
        encode_utf8(a + b) == encode_utf8(a) + encode_utf8(b),
    decreases a.len(),
{
    if a.len() == 0 {
        assert(a + b =~= b);
        assert(encode_utf8(a) + encode_utf8(b) =~= encode_utf8(b));
    } else {
        assert((a + b).drop_first() =~= a.drop_first() + b);
        lemma_encode_utf8_concat(a.drop_first(), b);
        assert((a + b)[0] == a[0]);
        assert(vstd::utf8::encode_scalar(a[0] as u32) + (encode_utf8(a.drop_first()) + encode_utf8(
            b,
        )) =~= (vstd::utf8::encode_scalar(a[0] as u32) + encode_utf8(a.drop_first())) + encode_utf8(
            b,
        ));
    }
}

/// Law: serving a file the directory holds under a non-HTML name returns
/// its bytes unchanged; together with the lookup, a write-then-serve round
/// trip on a non-HTML file is the identity on the bytes.
pub proof fn lemma_serve_non_html_round_trip(
    files: Seq<DirFile>,
    raw: Seq<char>,
    payload: Seq<char>,
)
    requires
        !is_html(normalized_spec(raw)),
        lookup_spec(files, normalized_spec(raw)) is Some,
    ensures
        serve_spec(files, raw, payload) == Result::<Option<Seq<u8>>, ServeError>::Ok(
            lookup_spec(files, normalized_spec(raw)),
        ),
{
}

/// Law: an HTML file whose text holds a closing-body marker is served as
/// its own bytes with the encoded payload spliced in at the first marker;
/// in particular the body's byte length is the file's byte length plus the
/// encoded payload's byte length.
pub proof fn lemma_serve_html_splice(data: Seq<u8>, payload: Seq<char>)
    requires
        valid_utf8(data),
        crate::inject::has_marker(decode_utf8(data)),
    ensures
        ({
            let text = decode_utf8(data);
            let i = crate::inject::find_marker(text);
            let out = encode_utf8(inject_spec(text, payload));
            &&& out == encode_utf8(text.subrange(0, i)) + encode_utf8(payload) + encode_utf8(
                text.subrange(i, text.len() as int),
            )
            &&& out.len() == data.len() + encode_utf8(payload).len()
        }),
{
    let text = decode_utf8(data);
    vstd::utf8::decode_utf8_encode_utf8(data);
    crate::inject::lemma_find_marker_from(text, 0);
    let i = crate::inject::find_marker(text);
    let prefix = text.subrange(0, i);
    let suffix = text.subrange(i, text.len() as int);
    assert(inject_spec(text, payload) == prefix + payload + suffix);
    lemma_encode_utf8_concat(prefix + payload, suffix);
    lemma_encode_utf8_concat(prefix, payload);
    assert(text =~= prefix + suffix);
    lemma_encode_utf8_concat(prefix, suffix);
}

/// Law: serving a path whose normalized name the directory does not hold
/// yields the not-found outcome, never an error.
pub proof fn lemma_serve_missing_not_found(
    files: Seq<DirFile>,
    raw: Seq<char>,
    payload: Seq<char>,
)
    requires
        lookup_spec(files, normalized_spec(raw)) is None,
    ensures
        serve_spec(files, raw, payload) == Result::<Option<Seq<u8>>, ServeError>::Ok(
            None::<Seq<u8>>,
        ),
{
}

/// Law: the request paths `/`, the empty path and `/index.html` all
/// normalize to `index.html`, so serving any of the three against the same
/// directory yields the same outcome.
pub proof fn lemma_root_paths_equivalent(files: Seq<DirFile>, payload: Seq<char>)
    ensures
        normalized_spec("/"@) == "index.html"@,
        normalized_spec(""@) == "index.html"@,
        normalized_spec("/index.html"@) == "index.html"@,
        serve_spec(files, "/"@, payload) == serve_spec(files, "/index.html"@, payload),
        serve_spec(files, ""@, payload) == serve_spec(files, "/index.html"@, payload),
{
    reveal_strlit("/");
    reveal_strlit("");
    reveal_strlit("/index.html");
    reveal_strlit("index.html");
    assert("/index.html"@.subrange(1, "/index.html"@.len() as int) =~= "index.html"@);
}

/// Maps a serving outcome to an HTTP reply: found is 200 with the body,
/// not-found is 404 with an empty body, an error is 500 with its detail.
pub fn to_http_reply(outcome: Result<Option<Vec<u8>>, ServeError>) -> (r: (u16, Vec<u8>))
    ensures
        outcome matches Ok(Some(b)) ==> r.0 == 200 && r.1@ == b@,
        outcome matches Ok(None) ==> r.0 == 404 && r.1@ == Seq::<u8>::empty(),
        outcome matches Err(e) ==> r.0 == 500 && r.1@ == encode_utf8(e.message_spec()),
{
    match outcome {
        Ok(Some(b)) => (200, b),
        Ok(None) => {
            let empty: Vec<u8> = Vec::new();
            proof {
                assert(empty@ =~= Seq::<u8>::empty());
            }
            (404, empty)
        },
        Err(e) => (500, e.message().as_str().as_bytes_vec()),
    }
}

/// The process-wide injection payload: the reload-client script wrapped in
/// a script tag.
pub open spec fn payload_spec(script: Seq<char>) -> Seq<char> {
    "<script type=\"text/javascript\">"@ + script + "</script>"@
}

/// Builds the injection payload for a reload-client script, per
/// [`payload_spec`]. Computed once at startup and shared across requests.
pub fn injection_payload_for(script: &str) -> (r: String)
    ensures
        r@ == payload_spec(script@),
{
    let mut out = "<script type=\"text/javascript\">".to_owned();
    out.append(script);
    out.append("</script>");
    out
}

} // verus!
