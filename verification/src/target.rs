//! The address a request goes to: a base URL and the query pairs added to it.

use crate::Error;
use url::{ParseError, Url};
use vstd::prelude::*;
use vstd::string::StringExecFns;
use vstd::utf8::encode_utf8;

verus! {

/// `url::Url`: a parsed URL, known here by its serialisation alone.
#[verifier::external_type_specification]
#[verifier::external_body]
pub struct ExUrl(Url);

/// `url::ParseError`: why a text is no URL. It is only turned into text.
#[verifier::external_type_specification]
#[verifier::external_body]
pub struct ExParseError(ParseError);

/// The characters a URL holds: its serialisation.
pub uninterp spec fn url_text(url: Url) -> Seq<char>;

/// The serialisation of the URL that `input` parses to; `None` where `input`
/// is no absolute URL.
pub uninterp spec fn parsed_text(input: Seq<char>) -> Option<Seq<char>>;

/// The serialisation of a URL once its query pairs are removed.
pub uninterp spec fn cleared_text(text: Seq<char>) -> Seq<char>;

/// The serialisation of a URL once the pair `name=value` is added to its
/// query.
pub uninterp spec fn appended_text(text: Seq<char>, name: Seq<char>, value: Seq<char>) -> Seq<
    char,
>;

/// The length of `text` in bytes of UTF-8.
pub open spec fn byte_len(text: Seq<char>) -> nat {
    encode_utf8(text).len()
}

/// The longest serialisation, in bytes, that a URL is given here. Positions
/// in a URL are 32 bits wide and a string holds `isize::MAX` bytes at most:
/// up to this length, one below 2 GiB, both are kept on every target.
pub const MAX_URL_BYTES: u64 = 2_147_483_647;

/// What the error says of a URL that has no room for what is to be added.
pub const TOO_LONG: &'static str = "URLs of 2 GiB and more are not supported";

/// Whether `e` is the error for a URL that has no room.
pub open spec fn is_too_long(e: Error) -> bool {
    e matches Error::InvalidParams(reason) && reason@ == TOO_LONG@
}

/// Whether the query pairs of a URL with this serialisation can be removed
/// without leaving the length a URL is given: an empty query may add a `?`.
pub open spec fn clear_fits(text: Seq<char>) -> bool {
    byte_len(text) < MAX_URL_BYTES
}

/// Whether `name=value` can be added to a URL with this serialisation
/// without leaving the length a URL is given, however the pair is escaped:
/// a byte is escaped to three at most, and two separators come with it.
pub open spec fn pair_fits(text: Seq<char>, name: Seq<char>, value: Seq<char>) -> bool {
    byte_len(text) + 3 * byte_len(name) + 3 * byte_len(value) + 2 <= MAX_URL_BYTES
}

/// `Url::parse`: parses `input` as an absolute URL. The result depends on
/// `input` alone; what it is, the contract does not say.
#[verifier::external_body]
fn parse(input: &str) -> (r: Result<Url, ParseError>)
    ensures
        match r {
            Ok(url) => parsed_text(input@) == Some(url_text(url)),
            Err(_) => parsed_text(input@) is None,
        },
{
    Url::parse(input)
}

/// `Url::query_pairs_mut` and `Serializer::clear`: removes the query pairs
/// and leaves an empty query. The calls panic where the serialisation
/// outgrows the positions of a URL: the length asked for keeps room for the
/// `?` that may be added.
#[verifier::external_body]
fn clear_pairs(url: &mut Url)
    requires
        clear_fits(url_text(*old(url))),
    ensures
        url_text(*final(url)) == cleared_text(url_text(*old(url))),
{
    url.query_pairs_mut().clear();
}

/// `Url::query_pairs_mut` and `Serializer::append_pair`: adds `name=value`
/// to the query, escaped as a form field. The calls panic where the
/// serialisation outgrows the positions of a URL: the length asked for
/// keeps room for the pair, however it is escaped.
#[verifier::external_body]
fn append_pair(url: &mut Url, name: &str, value: &str)
    requires
        pair_fits(url_text(*old(url)), name@, value@),
    ensures
        url_text(*final(url)) == appended_text(url_text(*old(url)), name@, value@),
{
    url.query_pairs_mut().append_pair(name, value);
}

/// `Url::as_str`: the serialisation of the URL.
#[verifier::external_body]
fn as_str(url: &Url) -> (text: &str)
    ensures
        text@ == url_text(*url),
{
    url.as_str()
}

/// The serialisation left when the query pairs are removed from a URL that
/// was built so far; `None` where there is no URL or it has no room.
pub open spec fn cleared(text: Option<Seq<char>>) -> Option<Seq<char>> {
    match text {
        Some(t) => if clear_fits(t) {
            Some(cleared_text(t))
        } else {
            None
        },
        None => None,
    }
}

/// The serialisation after `name=value` is added to a URL that was built so
/// far; `None` where there is no URL or it has no room for the pair.
pub open spec fn with_pair(text: Option<Seq<char>>, name: Seq<char>, value: Seq<char>) -> Option<
    Seq<char>,
> {
    match text {
        Some(t) => if pair_fits(t, name, value) {
            Some(appended_text(t, name, value))
        } else {
            None
        },
        None => None,
    }
}

/// The serialisation after `name=value` is added where there is a value,
/// and the serialisation as it was where there is none.
pub open spec fn with_optional_pair(
    text: Option<Seq<char>>,
    name: Seq<char>,
    value: Option<Seq<char>>,
) -> Option<Seq<char>> {
    match value {
        Some(v) => with_pair(text, name, v),
        None => text,
    }
}

/// A URL that query pairs are being added to.
pub struct Target {
    url: Url,
}

impl Target {
    /// The serialisation of the URL as it stands.
    pub closed spec fn text(&self) -> Seq<char> {
        url_text(self.url)
    }

    /// Parses `base` as an absolute URL. What is no absolute URL is refused
    /// as an invalid parameter.
    pub fn parse(base: &str) -> (r: Result<Target, Error>)
        ensures
            match r {
                Ok(target) => parsed_text(base@) == Some(target.text()),
                Err(e) => parsed_text(base@) is None && e is InvalidParams,
            },
    {
        match parse(base) {
            Ok(url) => Ok(Target { url }),
            Err(e) => Err(Error::InvalidParams(e.to_string())),
        }
    }

    /// Removes the query pairs that the URL has. A URL with no room for an
    /// empty query is refused as an invalid parameter.
    pub fn clear(self) -> (r: Result<Target, Error>)
        ensures
            match r {
                Ok(target) => cleared(Some(self.text())) == Some(target.text()),
                Err(e) => cleared(Some(self.text())) is None && is_too_long(e),
            },
    {
        let mut url = self.url;
        let len: usize = as_str(&url).as_bytes().len();
        if len as u128 >= MAX_URL_BYTES as u128 {
            return Err(Error::InvalidParams(String::from_str(TOO_LONG)));
        }
        clear_pairs(&mut url);
        Ok(Target { url })
    }

    /// Adds `name=value` to the query. A URL with no room for the pair is
    /// refused as an invalid parameter.
    pub fn pair(self, name: &str, value: &str) -> (r: Result<Target, Error>)
        ensures
            match r {
                Ok(target) => with_pair(Some(self.text()), name@, value@) == Some(target.text()),
                Err(e) => with_pair(Some(self.text()), name@, value@) is None && is_too_long(e),
            },
    {
        let mut url = self.url;
        let len: usize = as_str(&url).as_bytes().len();
        let needed: u128 = len as u128 + 3 * (name.as_bytes().len() as u128)
            + 3 * (value.as_bytes().len() as u128) + 2;
        if needed > MAX_URL_BYTES as u128 {
            return Err(Error::InvalidParams(String::from_str(TOO_LONG)));
        }
        append_pair(&mut url, name, value);
        Ok(Target { url })
    }

    /// The serialisation of the URL.
    pub fn into_string(self) -> (text: String)
        ensures
            text@ == self.text(),
    {
        String::from_str(as_str(&self.url))
    }
}

} // verus!
