//! The decoders that come from other crates. Nothing in this file is
//! proved: each function below states what the decoder it calls is taken to
//! return, and the rest of the library is verified against these statements.

use vstd::prelude::*;
use vstd::utf8::{decode_utf8, valid_utf8};

verus! {

/// What the URL-safe base64 decoder of the `base64` crate makes of `input`:
/// the decoded bytes, or `None` where it rejects the input. The decoder
/// takes the alphabet `A-Z a-z 0-9 - _` and reads padded and unpadded input
/// alike.
pub uninterp spec fn base64_url_safe(input: Seq<u8>) -> Option<Seq<u8>>;

/// The text that lossy UTF-8 decoding makes of bytes that are no valid
/// UTF-8: each malformed stretch is replaced by U+FFFD.
pub uninterp spec fn utf8_repaired(bytes: Seq<u8>) -> Seq<char>;

/// Whether the `url` crate accepts `text` as an absolute URL.
pub uninterp spec fn url_parses(text: Seq<char>) -> bool;

/// The host of the URL that `text` parses to, as the `url` crate spells it;
/// `None` where that URL has no host.
pub uninterp spec fn url_host(text: Seq<char>) -> Option<Seq<char>>;

/// The key-value pairs of the query of the URL that `text` parses to, read
/// as `application/x-www-form-urlencoded`, in the order of the query. A URL
/// without a query has none.
pub uninterp spec fn url_query_pairs(text: Seq<char>) -> Seq<(Seq<char>, Seq<char>)>;

/// The host and the query pairs of a parsed URL, as plain text.
#[derive(Debug, Clone)]
pub struct UrlParts {
    pub host: Option<String>,
    pub query: Vec<(String, String)>,
}

/// The views of a sequence of pairs of strings, in order.
pub open spec fn pairs_view(pairs: Seq<(String, String)>) -> Seq<(Seq<char>, Seq<char>)> {
    pairs.map_values(|p: (String, String)| (p.0@, p.1@))
}

impl UrlParts {
    /// The host as text.
    pub open spec fn host_view(&self) -> Option<Seq<char>> {
        match self.host {
            Some(h) => Some(h@),
            None => None,
        }
    }

    /// The query pairs as text.
    pub open spec fn query_view(&self) -> Seq<(Seq<char>, Seq<char>)> {
        pairs_view(self.query@)
    }
}

/// Calls `base64::decode_config` with the configuration `base64::URL_SAFE`.
/// The contract gives the outcome its name and claims nothing else. The
/// decoder's only panics guard its length arithmetic against overflow,
/// which no slice in memory is long enough to cause.
#[verifier::external_body]
pub(crate) fn decode_base64(input: &[u8]) -> (out: Option<Vec<u8>>)
    ensures
        match out {
            Some(bytes) => base64_url_safe(input@) == Some(bytes@),
            None => base64_url_safe(input@) is None,
        },
{
    base64::decode_config(input, base64::URL_SAFE).ok()
}

/// Calls `String::from_utf8_lossy`. The contract claims that valid UTF-8 is
/// decoded as it stands, and names what is made of anything else.
#[verifier::external_body]
pub(crate) fn lossy_string(bytes: &[u8]) -> (text: String)
    ensures
        valid_utf8(bytes@) ==> text@ == decode_utf8(bytes@),
        !valid_utf8(bytes@) ==> text@ == utf8_repaired(bytes@),
{
    String::from_utf8_lossy(bytes).into_owned()
}

/// Calls `url::Url::parse`, and on success `Url::host_str` and
/// `Url::query_pairs`, copying what they return into a [`UrlParts`]. The
/// contract gives each of the three outcomes its name and claims nothing
/// else.
#[verifier::external_body]
pub(crate) fn parse_url(text: &str) -> (parts: Option<UrlParts>)
    ensures
        parts is Some <==> url_parses(text@),
        parts matches Some(p) ==> p.host_view() == url_host(text@),
        parts matches Some(p) ==> p.query_view() == url_query_pairs(text@),
{
    match url::Url::parse(text) {
        Ok(url) => Some(
            UrlParts {
                host: url.host_str().map(|h| h.to_owned()),
                query: url.query_pairs().map(|(k, v)| (k.into_owned(), v.into_owned())).collect(),
            },
        ),
        Err(_) => None,
    }
}

} // verus!
