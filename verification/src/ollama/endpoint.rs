//! Where the model server is reached.

use crate::ollama::generate::chars_of;
use vstd::prelude::*;

verus! {

/// Where the server listens unless told otherwise.
pub const DEFAULT_BASE_URL: &'static str = "http://127.0.0.1:11434";

/// The path that answers with the server's version.
pub const VERSION_PATH: &'static str = "api/version";

/// The path that answers with the models the server holds.
pub const TAGS_PATH: &'static str = "api/tags";

/// The path that takes a request for a generation.
pub const GENERATE_PATH: &'static str = "/api/generate";

/// The media type asked of the answer to a generation: one JSON object per
/// line.
pub const NDJSON: &'static str = "application/x-ndjson";

/// The URL that the reference `path` resolves to against the URL `base`, as
/// the url crate resolves it; nothing if `base` is no absolute URL or `path`
/// cannot be resolved against it.
pub uninterp spec fn url_join(base: Seq<char>, path: Seq<char>) -> Option<Seq<char>>;

/// Parses `base` with `Url::parse`, resolves `path` against it with
/// `Url::join` and returns the text of the result. Both depend on the two
/// texts alone; either may refuse.
#[verifier::external_body]
fn join(base: &str, path: &str) -> (joined: Option<String>)
    ensures
        chars_of(joined) == url_join(base@, path@),
{
    match url::Url::parse(base) {
        Ok(base) => match base.join(path) {
            Ok(joined) => Some(String::from(joined)),
            Err(_) => None,
        },
        Err(_) => None,
    }
}

/// The URL of `path` on the server at `base`.
pub fn endpoint(base: &str, path: &str) -> (url: Option<String>)
    ensures
        chars_of(url) == url_join(base@, path@),
{
    join(base, path)
}

/// The URL that answers with the version of the server at `base`.
pub fn version_url(base: &str) -> (url: Option<String>)
    ensures
        chars_of(url) == url_join(base@, VERSION_PATH@),
{
    join(base, VERSION_PATH)
}

/// The URL that answers with the models of the server at `base`.
pub fn tags_url(base: &str) -> (url: Option<String>)
    ensures
        chars_of(url) == url_join(base@, TAGS_PATH@),
{
    join(base, TAGS_PATH)
}

/// The URL that takes a request for a generation on the server at `base`.
pub fn generate_url(base: &str) -> (url: Option<String>)
    ensures
        chars_of(url) == url_join(base@, GENERATE_PATH@),
{
    join(base, GENERATE_PATH)
}

} // verus!
