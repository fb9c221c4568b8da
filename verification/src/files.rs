//! Serving the dashboard's static assets: which asset a request names, and
//! the response that a lookup of it leads to.
//!
//! The assets live with the caller. A request's path is cleaned with
//! [`asset_path`], the caller looks the asset up, and [`respond`] says what
//! is sent back. The prefix under which the assets are served must be the
//! `static_path` of the page, which the page's asset addresses start with.
use vstd::prelude::*;
use vstd::string::StrSliceExecFns;

verus! {

/// `path` without the slashes that it starts with.
pub open spec fn trimmed(path: Seq<char>) -> Seq<char>
    decreases path.len(),
{
    if path.len() > 0 && path[0] == '/' {
        trimmed(path.subrange(1, path.len() as int))
    } else {
        path
    }
}

/// What is left of a path after trimming starts with no slash, so trimming
/// it again changes nothing.
pub proof fn trimmed_starts_with_no_slash(path: Seq<char>)
    ensures
        trimmed(path).len() == 0 || trimmed(path)[0] != '/',
        trimmed(trimmed(path)) == trimmed(path),
    decreases path.len(),
{
    if path.len() > 0 && path[0] == '/' {
        trimmed_starts_with_no_slash(path.subrange(1, path.len() as int));
    }
}

/// Trimming takes characters from the front only: what is left is the end of
/// the path, and all that was taken is slashes.
pub proof fn trimmed_is_the_end(path: Seq<char>)
    ensures
        trimmed(path).len() <= path.len(),
        trimmed(path) == path.subrange(path.len() - trimmed(path).len(), path.len() as int),
        forall|i: int| 0 <= i < path.len() - trimmed(path).len() ==> path[i] == '/',
    decreases path.len(),
{
    if path.len() > 0 && path[0] == '/' {
        let rest = path.subrange(1, path.len() as int);
        trimmed_is_the_end(rest);
        let cut = rest.len() - trimmed(rest).len();
        assert(rest.subrange(cut, rest.len() as int) =~= path.subrange(cut + 1, path.len() as int));
        assert forall|i: int| 0 <= i < path.len() - trimmed(path).len() implies path[i] == '/' by {
            if i > 0 {
                assert(rest[i - 1] == path[i]);
            }
        }
    } else {
        assert(path.subrange(0, path.len() as int) =~= path);
    }
}

/// The response to a request for an asset.
pub struct StaticResponse {
    /// The HTTP status: 200 or 404.
    pub status: u16,
    /// The value of the `Content-Type` header, where one is sent.
    pub content_type: Option<String>,
    /// The body.
    pub body: Vec<u8>,
}

/// Guesses the media type of a file from the extension of its path, with
/// `mime_guess::from_path`, and takes the first guess, or `text/plain` where
/// there is none. The guess goes by a table of extensions and by the
/// platform's notion of an extension, so nothing is claimed of the result.
#[verifier::external_body]
fn guess_content_type(path: &str) -> (r: String) {
    mime_guess::from_path(path).first_or_text_plain().as_ref().to_owned()
}

/// The name of the asset that a request path asks for: the path without its
/// leading slashes.
pub fn asset_path(path: &str) -> (r: &str)
    ensures
        r@ == trimmed(path@),
{
    let n = path.unicode_len();
    let mut i: usize = 0;
    assert(path@.subrange(0, n as int) =~= path@);
    while i < n && path.get_char(i) == '/'
        invariant
            n == path@.len(),
            i <= n,
            trimmed(path@) == trimmed(path@.subrange(i as int, n as int)),
        decreases n - i,
    {
        proof {
            let rest = path@.subrange(i as int, n as int);
            assert(rest[0] == '/');
            assert(rest.subrange(1, rest.len() as int) =~= path@.subrange(i + 1, n as int));
        }
        i += 1;
    }
    proof {
        let rest = path@.subrange(i as int, n as int);
        assert(rest.len() > 0 ==> rest[0] == path@[i as int]);
    }
    path.substring_char(i, n)
}

/// The response for an asset of media type `content_type`, given what the
/// lookup found: not found without the asset, else the asset's bytes under
/// its media type.
pub fn static_response(content_type: String, file: Option<Vec<u8>>) -> (r: StaticResponse)
    ensures
        file is None ==> r.status == 404 && r.content_type is None && r.body@.len() == 0,
        file is Some ==> r.status == 200 && r.content_type == Some(content_type) && r.body
            == file.unwrap(),
{
    match file {
        None => StaticResponse { status: 404, content_type: None, body: Vec::new() },
        Some(bytes) => StaticResponse { status: 200, content_type: Some(content_type), body: bytes },
    }
}

/// The response to a request for the asset named `path`, given what the
/// lookup found. The media type is guessed from the path.
pub fn respond(path: &str, file: Option<Vec<u8>>) -> (r: StaticResponse)
    ensures
        file is None ==> r.status == 404 && r.content_type is None && r.body@.len() == 0,
        file is Some ==> r.status == 200 && r.content_type is Some && r.body == file.unwrap(),
{
    let content_type = guess_content_type(path);
    static_response(content_type, file)
}

} // verus!
