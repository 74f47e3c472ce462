//! The GIF handler: `!giphy <keywords>` looks a GIF up with an external
//! image-search API and answers with the uploaded image.
//!
//! Only the decisions live here: whether the command matches, which request
//! URL to use (with the sender pseudonymized through a one-way hash), and
//! how the fetched metadata becomes a response. The HTTP fetch and the
//! upload themselves are the caller's job; their outcome comes back in as a
//! plain `MediaFetch` value.

use vstd::prelude::*;

use sha2::Digest;

use crate::errors::Error;
use crate::response::{Response, ResponseView};
use crate::text;

use super::Config;
use super::lookup;

verus! {

/// The hex digest `sender_hash_hex` returns: a pure function of the sender
/// text.
pub uninterp spec fn sha256_hex(s: Seq<char>) -> Seq<char>;

/// Relies on `sha2::Sha256` (formatted through generic-array's `LowerHex`):
/// the digest of the sender's bytes as lowercase hex. It depends on the
/// sender text alone and is 64 digits long (32 bytes, two digits each).
#[verifier::external_body]
fn sender_hash_hex(sender: &str) -> (r: String)
    ensures
        r@ == sha256_hex(sender@),
        r@.len() == 64,
{
    let digest = sha2::Sha256::digest(sender.as_bytes());
    format!("{:x}", digest)
}

/// Whether `url::Url::parse` accepts the text: a pure function of the text.
pub uninterp spec fn url_parses(s: Seq<char>) -> bool;

/// Relies on `url::Url::parse`: only whether the assembled request text is a
/// valid URL is needed, so the parsed value is dropped and the error kept.
#[verifier::external_body]
fn check_url(s: &str) -> (r: Result<(), url::ParseError>)
    ensures
        r is Ok <==> url_parses(s@),
{
    match url::Url::parse(s) {
        Ok(_) => Ok(()),
        Err(e) => Err(e),
    }
}

/// The request URL for a keyword search by a given sender.
pub open spec fn giphy_url(api_key: Seq<char>, keywords: Seq<char>, sender: Seq<char>) -> Seq<
    char,
> {
    "https://api.giphy.com/v1/gifs/translate?api_key="@ + api_key + "&s="@ + keywords
        + "&random_id="@ + sha256_hex(sender)
}

/// Assemble and validate the request URL. The sender enters only through
/// the one-way hash, so the same sender asking for the same keywords always
/// derives the same identifier.
pub fn get_url(api_key: &str, keywords: &str, sender: &str) -> (r: Result<String, Error>)
    ensures
        (r matches Ok(u) ==> u@ == giphy_url(api_key@, keywords@, sender@)),
        (r is Ok <==> url_parses(giphy_url(api_key@, keywords@, sender@))),
        (r matches Err(e) ==> e is Url),
{
    let mut s = String::from_str("https://api.giphy.com/v1/gifs/translate?api_key=");
    s.append(api_key);
    s.append("&s=");
    s.append(keywords);
    s.append("&random_id=");
    let h = sender_hash_hex(sender);
    s.append(h.as_str());
    match check_url(s.as_str()) {
        Ok(_) => Ok(s),
        Err(e) => Err(Error::Url(e)),
    }
}

/// The keyword capture of a well-formed command: optional edit group,
/// `!gif` or `!giphy` (any case), optional `:`, whitespace, then the
/// free-text capture to the end.
pub open spec fn giphy_keywords(m: Seq<char>) -> Option<Seq<char>> {
    let i: int = if text::has_edit_group(m) {
        3
    } else {
        0
    };
    if text::at_ci(m, i, "!gi"@) {
        if text::at_ci(m, i + 3, "f"@) {
            giphy_tail(m, i + 4)
        } else if text::at_ci(m, i + 3, "phy"@) {
            giphy_tail(m, i + 6)
        } else {
            None
        }
    } else {
        None
    }
}

/// The `:?\s+(.+)$` tail after the command word.
pub open spec fn giphy_tail(m: Seq<char>, k: int) -> Option<Seq<char>> {
    let k2: int = if k < m.len() && m[k] == ':' {
        k + 1
    } else {
        k
    };
    text::rest_capture(m, k2)
}

/// Where the keyword capture starts, if the command matches.
pub fn giphy_keywords_start(message: &str) -> (r: Option<usize>)
    ensures
        match r {
            Some(j) => j < message@.len() && giphy_keywords(message@) == Some(
                message@.subrange(j as int, message@.len() as int),
            ),
            None => giphy_keywords(message@) is None,
        },
{
    let n = message.unicode_len();
    let i: usize = if text::has_edit_group_str(message) {
        3
    } else {
        0
    };
    if !text::match_at_ci(message, i, "!gi") {
        return None;
    }
    proof {
        reveal_strlit("!gi");
        reveal_strlit("f");
        reveal_strlit("phy");
    }
    let k: usize = if text::match_at_ci(message, i + 3, "f") {
        i + 4
    } else if text::match_at_ci(message, i + 3, "phy") {
        i + 6
    } else {
        return None;
    };
    let k2 = if k < n && message.get_char(k) == ':' {
        k + 1
    } else {
        k
    };
    text::rest_capture_start(message, k2)
}

/// Positional value of a digit string.
pub open spec fn digits_value(s: Seq<char>) -> int
    decreases s.len(),
{
    if s.len() == 0 {
        0
    } else {
        10 * digits_value(s.drop_last()) + (s.last() as u32 - 48)
    }
}

proof fn lemma_digits_value_step(s: Seq<char>, i: int)
    requires
        0 <= i < s.len(),
    ensures
        digits_value(s.subrange(0, i + 1)) == 10 * digits_value(s.subrange(0, i)) + (s[i] as u32
            - 48),
{
    assert(s.subrange(0, i + 1).drop_last() =~= s.subrange(0, i));
    assert(s.subrange(0, i + 1).last() == s[i]);
}

proof fn lemma_digits_value_grows(s: Seq<char>, i: int)
    requires
        0 <= i <= s.len(),
        forall|t: int| 0 <= t < s.len() ==> text::is_digit(#[trigger] s[t]),
        digits_value(s.subrange(0, i)) >= 0,
    ensures
        digits_value(s) >= digits_value(s.subrange(0, i)),
    decreases s.len() - i,
{
    if i < s.len() {
        lemma_digits_value_step(s, i);
        lemma_digits_value_grows(s, i + 1);
    } else {
        assert(s.subrange(0, i) =~= s);
    }
}

/// The dimension fields of the fetched metadata arrive as decimal strings;
/// the platform stores them as integers bounded by `2^53 - 1`. A string
/// that is empty, not all digits, or too large counts as 0.
pub open spec fn parse_dimension(s: Seq<char>) -> u64 {
    if s.len() > 0 && (forall|t: int| 0 <= t < s.len() ==> text::is_digit(#[trigger] s[t]))
        && digits_value(s) <= 9007199254740991 {
        digits_value(s) as u64
    } else {
        0
    }
}

pub fn parse_dimension_str(s: &str) -> (r: u64)
    ensures
        r == parse_dimension(s@),
{
    let n = s.unicode_len();
    if n == 0 {
        return 0;
    }
    let mut value: u64 = 0;
    let mut i: usize = 0;
    while i < n
        invariant
            0 <= i <= n,
            n == s@.len(),
            forall|t: int| 0 <= t < i ==> text::is_digit(#[trigger] s@[t]),
            value == digits_value(s@.subrange(0, i as int)),
            value <= 9007199254740991,
        decreases n - i,
    {
        let c = s.get_char(i);
        if !text::char_is_digit(c) {
            return 0;
        }
        let d = (c as u32 - 48) as u64;
        proof {
            lemma_digits_value_step(s@, i as int);
        }
        if value > (9007199254740991 - d) / 10 {
            proof {
                if forall|t: int| 0 <= t < s@.len() ==> text::is_digit(#[trigger] s@[t]) {
                    lemma_digits_value_grows(s@, i as int + 1);
                }
            }
            return 0;
        }
        value = value * 10 + d;
        i += 1;
    }
    proof {
        assert(s@.subrange(0, n as int) =~= s@);
    }
    value
}

/// The metadata of a successfully fetched and uploaded GIF, as the platform
/// reported it: the caller performs the fetch and hands the outcome in.
pub struct MediaFetch {
    pub gif_id: String,
    pub content_uri: String,
    pub width: String,
    pub height: String,
    pub size: String,
}

pub struct MediaFetchView {
    pub gif_id: Seq<char>,
    pub content_uri: Seq<char>,
    pub width: Seq<char>,
    pub height: Seq<char>,
    pub size: Seq<char>,
}

impl View for MediaFetch {
    type V = MediaFetchView;

    open spec fn view(&self) -> MediaFetchView {
        MediaFetchView {
            gif_id: self.gif_id@,
            content_uri: self.content_uri@,
            width: self.width@,
            height: self.height@,
            size: self.size@,
        }
    }
}

/// The response a fetch outcome turns into.
pub open spec fn media_view_of(f: MediaFetchView) -> ResponseView {
    ResponseView::Media {
        caption: "GIPHY id: "@ + f.gif_id,
        content_uri: f.content_uri,
        mimetype: "image/gif"@,
        width: parse_dimension(f.width),
        height: parse_dimension(f.height),
        size_bytes: parse_dimension(f.size),
    }
}

/// Turn fetched metadata into the image response: caption from the GIF id,
/// dimensions and size parsed from their decimal strings.
pub fn media_response(fetch: &MediaFetch) -> (r: Response)
    ensures
        r@ == media_view_of(fetch@),
{
    let mut caption = String::from_str("GIPHY id: ");
    caption.append(fetch.gif_id.as_str());
    Response::Media {
        caption,
        content_uri: fetch.content_uri.clone(),
        mimetype: String::from_str("image/gif"),
        width: parse_dimension_str(fetch.width.as_str()),
        height: parse_dimension_str(fetch.height.as_str()),
        size_bytes: parse_dimension_str(fetch.size.as_str()),
    }
}

pub struct Giphy {
    pub api_key: Option<String>,
}

impl Giphy {
    /// Read the API credential from the configuration; without it the
    /// handler stays silent rather than failing.
    pub fn new(config: Option<&Config>) -> (r: Self)
        ensures
            match config {
                None => r.api_key is None,
                Some(c) => match lookup(c.entries@, "giphy_api_key"@) {
                    Some(v) => r.api_key matches Some(k) && k@ == v,
                    None => r.api_key is None,
                },
            },
    {
        match config {
            None => Giphy { api_key: None },
            Some(c) => Giphy { api_key: c.get("giphy_api_key") },
        }
    }

    pub fn cmd(&self) -> (r: &str)
        ensures
            r@ == "!giphy <keywords>"@,
    {
        "!giphy <keywords>"
    }

    pub fn description(&self) -> (r: &str)
        ensures
            r@ == "Finds a GIF relevant to your interests"@,
    {
        "Finds a GIF relevant to your interests"
    }

    /// The request the handler wants made for this message: nothing when the
    /// credential is missing or the command does not match; otherwise the
    /// assembled URL, or the URL error.
    pub fn request_url(&self, sender: &str, message: &str) -> (r: Option<Result<String, Error>>)
        ensures
            (r is Some <==> self.api_key is Some && giphy_keywords(message@) is Some),
            match r {
                Some(res) => {
                    &&& self.api_key matches Some(key)
                    &&& giphy_keywords(message@) matches Some(kw)
                    &&& (res matches Ok(u) ==> u@ == giphy_url(key@, kw, sender@))
                    &&& (res is Ok <==> url_parses(giphy_url(key@, kw, sender@)))
                    &&& (res matches Err(e) ==> e is Url)
                },
                None => true,
            },
    {
        let key = match &self.api_key {
            None => {
                return None;
            },
            Some(k) => k,
        };
        match giphy_keywords_start(message) {
            None => None,
            Some(j) => {
                let n = message.unicode_len();
                let kw = message.substring_char(j, n);
                Some(get_url(key.as_str(), kw, sender))
            },
        }
    }
}

} // verus!
