//! The addresses that requests go to: a base URL with the path of an
//! endpoint behind the path it has.

use crate::llm::LlmError;
use url::Url;
use vstd::prelude::*;
use vstd::string::*;
use vstd::utf8::encode_utf8;

verus! {

/// Trusted: makes `url::Url` known to the verifier as an opaque type.
#[verifier::external_type_specification]
#[verifier::external_body]
pub struct ExUrl(url::Url);

/// A URL written out, which is what `Url::as_str` hands out.
pub uninterp spec fn url_text(url: &Url) -> Seq<char>;

/// The path of a URL, which is what `Url::path` hands out.
pub uninterp spec fn url_path(url: &Url) -> Seq<char>;

/// The URL that `Url::set_path` makes of a URL and a path.
pub uninterp spec fn url_with_path(url: &Url, path: Seq<char>) -> Url;

/// The greatest length, in bytes, of a URL and of a path that are put
/// together here. A URL cannot be longer than four gigabytes, and a path may
/// grow threefold when it is encoded: these two bounds keep well below.
pub const PART_LIMIT: usize = 0x1000_0000;

/// Writes a URL out.
///
/// Trusted: calls `Url::as_str`.
#[verifier::external_body]
pub(crate) fn text(url: &Url) -> (text: &str)
    ensures
        text@ == url_text(url),
{
    url.as_str()
}

/// The path of a URL.
///
/// Trusted: calls `Url::path`.
#[verifier::external_body]
pub(crate) fn path(url: &Url) -> (path: &str)
    ensures
        path@ == url_path(url),
{
    url.path()
}

/// Copies a URL.
///
/// Trusted: calls `Url::clone`, which makes an equal URL.
#[verifier::external_body]
pub(crate) fn clone_url(url: &Url) -> (copy: Url)
    ensures
        copy == *url,
{
    url.clone()
}

/// A copy of `url` with its path replaced.
///
/// Trusted: calls `Url::set_path` on a copy of the URL. The outcome depends
/// on the URL and the path alone. `set_path` gives up on a URL that would
/// outgrow four gigabytes, so longer parts are kept from it.
#[verifier::external_body]
pub(crate) fn with_path(url: &Url, path: &str) -> (changed: Url)
    requires
        encode_utf8(url_text(url)).len() <= PART_LIMIT,
        encode_utf8(path@).len() <= PART_LIMIT,
    ensures
        changed == url_with_path(url, path@),
{
    let mut changed = url.clone();
    changed.set_path(path);
    changed
}

/// Whether `base` and the path that results from putting `suffix` behind its
/// path are short enough to be put together.
pub open spec fn fits(base: &Url, suffix: Seq<char>) -> bool {
    &&& encode_utf8(url_text(base)).len() <= PART_LIMIT
    &&& encode_utf8(url_path(base) + suffix).len() <= PART_LIMIT
}

/// The address of an endpoint: `base` with `suffix` put behind its path.
///
/// Fails where the parts are too long to be put together.
pub fn endpoint(base: &Url, suffix: &str) -> (res: Result<Url, LlmError>)
    ensures
        fits(base, suffix@) ==> res == Ok::<Url, LlmError>(
            url_with_path(base, url_path(base) + suffix@),
        ),
        !fits(base, suffix@) ==> (res matches Err(LlmError::MalformedConfig(what)) && what@
            == "base url too long"@),
{
    let joined = String::from_str(path(base)).concat(suffix);
    if text(base).as_bytes().len() > PART_LIMIT || joined.as_str().as_bytes().len() > PART_LIMIT {
        return Err(LlmError::MalformedConfig("base url too long"));
    }
    Ok(with_path(base, joined.as_str()))
}

} // verus!
