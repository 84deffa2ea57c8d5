//! The request that is put to the catalog, and how its answer is read.
//!
//! The catalog is searched with one phrase query for the recording and the
//! artist. The query is percent-encoded into the address; the answer is a list
//! of candidates, and an empty list means that the catalog knows no such song.

use vstd::prelude::*;
use vstd::string::StringExecFns;
use vstd::utf8::encode_utf8;
use crate::model::RawCandidate;
use crate::text::push_char;

verus! {

/// A character as it stands inside a quoted phrase: a `"` gets a `\` before it.
pub open spec fn escaped_char(c: char) -> Seq<char> {
    if c == '"' {
        seq!['\\', '"']
    } else {
        seq![c]
    }
}

/// A text as it stands inside a quoted phrase.
pub open spec fn escaped(text: Seq<char>) -> Seq<char> {
    text.flat_map(|c: char| escaped_char(c))
}

proof fn lemma_escaped_next(text: Seq<char>, i: int)
    requires
        0 <= i < text.len(),
    ensures
        escaped(text.take(i + 1)) == escaped(text.take(i)) + escaped_char(text[i]),
{
    text.lemma_flat_map_take_append(|c: char| escaped_char(c), i);
}

/// Inside a quoted phrase no `"` of the text stands bare: each has a `\`
/// before it.
pub proof fn lemma_escaped_quotes_are_guarded(text: Seq<char>, i: int)
    requires
        0 <= i < escaped(text).len(),
        escaped(text)[i] == '"',
    ensures
        i > 0,
        escaped(text)[i - 1] == '\\',
    decreases text.len(),
{
    if text.len() > 0 {
        let front = text.drop_last();
        assert(text.take(text.len() as int) =~= text);
        lemma_escaped_next(text, text.len() - 1);
        if i < escaped(front).len() {
            lemma_escaped_quotes_are_guarded(front, i);
        }
    }
}

/// Puts a `\` before each `"` of the text. Every other character, a `\` of
/// the text too, is kept as it is.
pub fn escape_quotes(text: &str) -> (out: String)
    ensures
        out@ == escaped(text@),
{
    let mut out = String::new();
    for c in it: text.chars()
        invariant
            it.seq() == text@,
            out@ == escaped(text@.take(it.index() as int)),
    {
        proof {
            lemma_escaped_next(text@, it.index() as int);
        }
        if c == '"' {
            push_char(&mut out, '\\');
        }
        push_char(&mut out, c);
    }
    assert(text@.take(text@.len() as int) =~= text@);
    out
}

/// The query that is put to the catalog: the recording and the artist, each
/// as a quoted phrase.
pub open spec fn phrase_query_of(title: Seq<char>, artist: Seq<char>) -> Seq<char> {
    "recording:\""@ + escaped(title) + "\" AND artist:\""@ + escaped(artist) + "\""@
}

/// Builds the query for a recording by an artist.
pub fn phrase_query(title: &str, artist: &str) -> (query: String)
    ensures
        query@ == phrase_query_of(title@, artist@),
{
    let mut query = String::from_str("recording:\"");
    query.append(escape_quotes(title).as_str());
    query.append("\" AND artist:\"");
    query.append(escape_quotes(artist).as_str());
    query.append("\"");
    query
}

/// Whether a byte stands for itself in an address: an ASCII letter or digit,
/// or one of `-`, `.`, `_`, `~`.
pub open spec fn is_unreserved(byte: u8) -> bool {
    ||| 0x30 <= byte <= 0x39
    ||| 0x41 <= byte <= 0x5a
    ||| 0x61 <= byte <= 0x7a
    ||| byte == 0x2d
    ||| byte == 0x2e
    ||| byte == 0x5f
    ||| byte == 0x7e
}

/// The upper-case hexadecimal digit of a value below sixteen.
pub open spec fn hex_digit(value: int) -> char
    recommends
        0 <= value < 16,
{
    if value < 10 {
        (0x30 + value) as char
    } else {
        (0x41 + value - 10) as char
    }
}

/// The percent-encoding of one byte.
pub open spec fn percent_encoded_byte(byte: u8) -> Seq<char> {
    if is_unreserved(byte) {
        seq![byte as char]
    } else {
        seq!['%', hex_digit(byte as int / 16), hex_digit(byte as int % 16)]
    }
}

/// The percent-encoding of a sequence of bytes.
pub open spec fn percent_encoded(bytes: Seq<u8>) -> Seq<char> {
    bytes.flat_map(|byte: u8| percent_encoded_byte(byte))
}

/// Whether a character may stand in an encoded text: `%`, or a byte that
/// stands for itself.
pub open spec fn is_encoded_char(c: char) -> bool {
    c == '%' || (c as int) < 128 && is_unreserved(c as u8)
}

/// An encoded text holds nothing but `%` and the characters that stand for
/// themselves: no blank, `"`, `&`, `=`, `#` or `?` of the query is left in it.
pub proof fn lemma_percent_encoded_is_plain(bytes: Seq<u8>, i: int)
    requires
        0 <= i < percent_encoded(bytes).len(),
    ensures
        is_encoded_char(percent_encoded(bytes)[i]),
    decreases bytes.len(),
{
    let encode = |byte: u8| percent_encoded_byte(byte);
    if bytes.len() > 0 {
        let front = bytes.drop_last();
        assert(front.push(bytes.last()) =~= bytes);
        front.lemma_flat_map_push(encode, bytes.last());
        if i < percent_encoded(front).len() {
            lemma_percent_encoded_is_plain(front, i);
        }
    }
}

/// `urlencoding::encode`: each byte of the text's UTF-8 form is kept where it
/// is an ASCII letter or digit or one of `-`, `.`, `_`, `~`, and is otherwise
/// written as `%` and its two upper-case hexadecimal digits.
#[verifier::external_body]
fn url_encode(text: &str) -> (encoded: String)
    ensures
        encoded@ == percent_encoded(encode_utf8(text@)),
{
    urlencoding::encode(text).into_owned()
}

/// The address of the catalog where none is configured.
pub open spec fn default_service_url() -> Seq<char> {
    "https://musicbrainz.org/ws/2/recording"@
}

/// The address of the catalog: the configured one, or the default.
pub fn service_url(configured: Option<String>) -> (url: String)
    ensures
        url@ == match configured {
            Some(address) => address@,
            None => default_service_url(),
        },
{
    match configured {
        Some(address) => address,
        None => String::from_str("https://musicbrainz.org/ws/2/recording"),
    }
}

/// The address of one search: the service, the encoded query, the format and
/// the cap on the number of results.
pub open spec fn search_url_of(service: Seq<char>, title: Seq<char>, artist: Seq<char>) -> Seq<
    char,
> {
    service + "?query="@ + percent_encoded(encode_utf8(phrase_query_of(title, artist)))
        + "&fmt=json&limit=20"@
}

/// Builds the address of the search for a recording by an artist.
pub fn search_url(service: &str, title: &str, artist: &str) -> (url: String)
    ensures
        url@ == search_url_of(service@, title@, artist@),
{
    let query = phrase_query(title, artist);
    let mut url = String::from_str(service);
    url.append("?query=");
    url.append(url_encode(query.as_str()).as_str());
    url.append("&fmt=json&limit=20");
    url
}

/// One request to the catalog.
#[derive(Debug, PartialEq, Eq)]
pub struct CatalogRequest {
    pub url: String,
    pub user_agent: String,
}

/// Builds the one request of a resolution. Nothing is asked twice.
pub fn search_request(service: &str, title: &str, artist: &str) -> (request: CatalogRequest)
    ensures
        request.url@ == search_url_of(service@, title@, artist@),
        request.user_agent@ == "otel-demo/1.0"@,
{
    CatalogRequest {
        url: search_url(service, title, artist),
        user_agent: String::from_str("otel-demo/1.0"),
    }
}

/// Why the catalog gave no candidates.
#[derive(Clone, Copy, Debug, PartialEq, Eq)]
pub enum CatalogError {
    /// The answer was read and held no recording.
    NotFound,
    /// The request failed, or its answer could not be read.
    Transport,
}

/// A duration as the catalog sends it, in milliseconds, taken as a signed
/// 32-bit number: a length above `i32::MAX` wraps around.
pub open spec fn duration_of(length: Option<u32>) -> Option<i32> {
    match length {
        Some(ms) => Some(
            if ms <= i32::MAX {
                ms as i32
            } else {
                (ms - 0x1_0000_0000) as i32
            },
        ),
        None => None,
    }
}

/// Converts the length of a recording to the duration of a candidate.
pub fn duration_of_length(length: Option<u32>) -> (duration: Option<i32>)
    ensures
        duration == duration_of(length),
{
    match length {
        Some(ms) => {
            if ms <= 0x7fff_ffff {
                Some(ms as i32)
            } else {
                Some((ms as i64 - 0x1_0000_0000) as i32)
            }
        },
        None => None,
    }
}

/// Reads a decoded answer: a list without recordings means that the song
/// was not found.
pub fn candidates_of(recordings: Vec<RawCandidate>) -> (answer: Result<
    Vec<RawCandidate>,
    CatalogError,
>)
    ensures
        recordings.len() == 0 ==> answer == Err::<Vec<RawCandidate>, CatalogError>(
            CatalogError::NotFound,
        ),
        recordings.len() > 0 ==> answer == Ok::<Vec<RawCandidate>, CatalogError>(recordings),
{
    if recordings.len() == 0 {
        Err(CatalogError::NotFound)
    } else {
        Ok(recordings)
    }
}

} // verus!
