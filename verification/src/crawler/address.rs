//! Absolute URLs, as the `url` crate reads and resolves them. Nothing
//! here is proved: each function states what the crate documents of one
//! of its own, and what that computes is known only by name.

use vstd::prelude::*;

verus! {

/// `url::Url`, a parsed URL; nothing of its inside is known here.
#[verifier::external_type_specification]
#[verifier::external_body]
pub struct ExUrl(url::Url);

/// The serialization of a parsed URL.
pub uninterp spec fn url_text(url: url::Url) -> Seq<char>;

/// The serialization of the URL that a text parses to, or nothing where
/// the parser refuses the text.
pub uninterp spec fn parsed(input: Seq<char>) -> Option<Seq<char>>;

/// The serialization of the URL that `reference` resolves to against the
/// URL with the serialization `base`, or nothing where it resolves to
/// none.
pub uninterp spec fn joined(base: Seq<char>, reference: Seq<char>) -> Option<Seq<char>>;

/// The scheme of the URL with the given serialization.
pub uninterp spec fn scheme_of(url: Seq<char>) -> Seq<char>;

/// The host of the URL with the given serialization, where it has one.
pub uninterp spec fn host_of(url: Seq<char>) -> Option<Seq<char>>;

/// The path of the URL with the given serialization.
pub uninterp spec fn path_of(url: Seq<char>) -> Seq<char>;

/// `url::Url::parse`: reads an absolute URL; the parser either refuses
/// the text or hands back the URL it stands for.
#[verifier::external_body]
pub(crate) fn parse_url(input: &str) -> (r: Option<url::Url>)
    ensures
        match r {
            Some(u) => parsed(input@) == Some(url_text(u)),
            None => parsed(input@) is None,
        },
{
    url::Url::parse(input).ok()
}

/// `url::Url::join`: resolves a reference against a base URL. The result
/// depends on the base's serialization and the reference alone.
#[verifier::external_body]
pub(crate) fn join_url(base: &url::Url, reference: &str) -> (r: Option<url::Url>)
    ensures
        match r {
            Some(u) => joined(url_text(*base), reference@) == Some(url_text(u)),
            None => joined(url_text(*base), reference@) is None,
        },
{
    base.join(reference).ok()
}

/// `url::Url::as_str`: the serialization of the URL.
#[verifier::external_body]
pub(crate) fn url_string(url: &url::Url) -> (r: String)
    ensures
        r@ == url_text(*url),
{
    url.as_str().to_string()
}

/// `url::Url::scheme`: the scheme of the URL, without the colon.
#[verifier::external_body]
pub(crate) fn url_scheme(url: &url::Url) -> (r: String)
    ensures
        r@ == scheme_of(url_text(*url)),
{
    url.scheme().to_string()
}

/// `url::Url::host_str`: the host of the URL as text, where it has one.
#[verifier::external_body]
pub(crate) fn url_host(url: &url::Url) -> (r: Option<String>)
    ensures
        r.deep_view() == host_of(url_text(*url)),
{
    url.host_str().map(|h| h.to_string())
}

/// `url::Url::path`: the path of the URL.
#[verifier::external_body]
pub(crate) fn url_path(url: &url::Url) -> (r: String)
    ensures
        r@ == path_of(url_text(*url)),
{
    url.path().to_string()
}

} // verus!
