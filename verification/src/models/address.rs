//! Addresses: parsing, joining and extending them is the `url` crate's work.

use vstd::prelude::*;

verus! {

/// What `url::Url::parse` makes of a text: the address as `url` writes it, or
/// the words of the `url::ParseError`.
pub uninterp spec fn url_parsed(input: Seq<char>) -> Result<Seq<char>, Seq<char>>;

/// What `url::Url::join` makes of `input` on the address that
/// `url::Url::parse` reads from `base`: the joined address as `url` writes
/// it, or the words of the `url::ParseError` of whichever step failed.
pub uninterp spec fn url_joined(base: Seq<char>, input: Seq<char>) -> Result<
    Seq<char>,
    Seq<char>,
>;

/// The address that `url::Url::parse` reads from `address`, as `url` writes
/// it after `url::Url::set_query` has replaced its query with `query`; or the
/// words of the `url::ParseError` where `address` is none.
pub uninterp spec fn url_queried(address: Seq<char>, query: Seq<char>) -> Result<
    Seq<char>,
    Seq<char>,
>;

/// How many bytes a text takes, which is what `len` counts.
pub open spec fn byte_len(s: Seq<char>) -> usize {
    vstd::utf8::encode_utf8(s).len() as usize
}

/// The longest text, in bytes, that is handed to `url::Url::set_query`.
pub const MAX_QUERIED_LEN: usize = 0x0100_0000;

/// A `Result` of texts, each taken by its characters.
pub open spec fn text_result(r: Result<String, String>) -> Result<Seq<char>, Seq<char>> {
    match r {
        Ok(s) => Ok(s@),
        Err(m) => Err(m@),
    }
}

/// Calls `url::Url::parse` and writes the address, or the error, out as text.
#[verifier::external_body]
pub(crate) fn parse_url(input: &str) -> (r: Result<String, String>)
    ensures
        text_result(r) == url_parsed(input@),
{
    match url::Url::parse(input) {
        Ok(address) => Ok(String::from(address)),
        Err(e) => Err(e.to_string()),
    }
}

/// Calls `url::Url::join` on the address parsed from `base` and writes the
/// joined address, or the error, out as text.
#[verifier::external_body]
pub(crate) fn join_url(base: &str, input: &str) -> (r: Result<String, String>)
    ensures
        text_result(r) == url_joined(base@, input@),
{
    match url::Url::parse(base) {
        Ok(b) => match b.join(input) {
            Ok(address) => Ok(String::from(address)),
            Err(e) => Err(e.to_string()),
        },
        Err(e) => Err(e.to_string()),
    }
}

/// Calls `url::Url::set_query` on the address parsed from `address` and writes
/// the result, or the error of the parse, out as text.
///
/// `set_query` records where the query starts as a 32-bit number and stops
/// the program where the address is too long for that. Percent-encoding and
/// host names lengthen a text by a small factor only, so texts up to
/// [`MAX_QUERIED_LEN`] stay far below that length.
#[verifier::external_body]
pub(crate) fn query_url(address: &str, query: &str) -> (r: Result<String, String>)
    requires
        byte_len(address@) <= MAX_QUERIED_LEN,
        byte_len(query@) <= MAX_QUERIED_LEN,
    ensures
        text_result(r) == url_queried(address@, query@),
{
    match url::Url::parse(address) {
        Ok(mut a) => {
            a.set_query(Some(query));
            Ok(String::from(a))
        },
        Err(e) => Err(e.to_string()),
    }
}

} // verus!
