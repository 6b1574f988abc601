//! The site that series are searched on and chapters are fetched from: the
//! addresses to ask, and what to keep of what a page of the site holds.
//!
//! Fetching a page and picking elements out of its markup is the caller's
//! part. This module is handed the texts that were picked, and decides.

use crate::catalog::{ChaptersRequest, MangaResult, Page, SearchRequest};
use crate::decimal::{padded3, padded3_text};
use crate::text::{has_prefix, join2, join3, starts_with};
use vstd::prelude::*;
use vstd::string::*;
use vstd::utf8::encode_utf8;

verus! {

/// Why an address cannot be used.
#[derive(Clone, Copy, Debug, PartialEq, Eq, Structural)]
pub enum ScrapeError {
    /// The address does not begin with `http`.
    NotHttp,
    /// The address cannot be parsed.
    BadUrl,
}

/// A chapter of a series on the site.
#[derive(Debug, PartialEq, Eq)]
pub struct Chapter {
    pub chapter: String,
    pub url: String,
}

/// The address of the site.
pub open spec fn site() -> Seq<char> {
    "https://mangapill.com"@
}

/// Whether a byte stands for itself in a query: letters, digits and `-`,
/// `.`, `_`, `~`.
pub open spec fn is_unreserved(b: u8) -> bool {
    (48 <= b <= 57) || (65 <= b <= 90) || (97 <= b <= 122) || b == 45 || b == 46 || b == 95 || b
        == 126
}

/// The upper-case hexadecimal digit for `n`, `0 <= n < 16`.
pub open spec fn upper_hex_char(n: int) -> char {
    if n < 10 {
        ((48 + n) as u8) as char
    } else {
        ((55 + n) as u8) as char
    }
}

/// A byte as it is written in a query: itself, or `%` and two hexadecimal
/// digits.
pub open spec fn escaped_byte(b: u8) -> Seq<char> {
    if is_unreserved(b) {
        seq![b as char]
    } else {
        seq!['%', upper_hex_char(b as int / 16), upper_hex_char(b as int % 16)]
    }
}

/// Bytes as they are written in a query.
pub open spec fn percent_encoded(bytes: Seq<u8>) -> Seq<char>
    decreases bytes.len(),
{
    if bytes.len() == 0 {
        Seq::empty()
    } else {
        percent_encoded(bytes.drop_last()) + escaped_byte(bytes.last())
    }
}

/// The address that `reference` points to when it is found on a page at
/// `base`, as `Url::join` of the `url` crate resolves it; `None` where either
/// cannot be parsed.
pub uninterp spec fn joined_url(base: Seq<char>, reference: Seq<char>) -> Option<Seq<char>>;

/// The path of an address, as `Url::path` of the `url` crate gives it; `None`
/// where the address cannot be parsed.
pub uninterp spec fn path_of_url(url: Seq<char>) -> Option<Seq<char>>;

#[verifier::external_type_specification]
#[verifier::external_body]
pub struct ExParseError(url::ParseError);

/// Calls `urlencoding::encode`. Trusted: the crate writes every byte of the
/// UTF-8 form of the text as itself where it is a letter, a digit or one of
/// `-`, `.`, `_`, `~`, and else as `%` and two upper-case hexadecimal digits.
#[verifier::external_body]
fn percent_encode(s: &str) -> (r: String)
    ensures
        r@ == percent_encoded(encode_utf8(s@)),
{
    urlencoding::encode(s).into_owned()
}

/// Parses `base` with `Url::parse`, resolves `reference` against it with
/// `Url::join`, and writes the result out. Trusted: the outcome is a function
/// of the two texts.
#[verifier::external_body]
fn join_url(base: &str, reference: &str) -> (r: Result<String, url::ParseError>)
    ensures
        match r {
            Ok(joined) => joined_url(base@, reference@) == Some(joined@),
            Err(_) => joined_url(base@, reference@) is None,
        },
{
    Ok(url::Url::parse(base)?.join(reference)?.to_string())
}

/// Parses `url` with `Url::parse` and copies out its `Url::path`. Trusted:
/// the outcome is a function of the text.
#[verifier::external_body]
fn url_path(url: &str) -> (r: Result<String, url::ParseError>)
    ensures
        match r {
            Ok(path) => path_of_url(url@) == Some(path@),
            Err(_) => path_of_url(url@) is None,
        },
{
    Ok(url::Url::parse(url)?.path().to_string())
}

/// The address of the first page of a search for `query`.
pub open spec fn search_url_of(query: Seq<char>) -> Seq<char> {
    site() + "/search?page=1&q="@ + percent_encoded(encode_utf8(query))
}

/// The address to ask for a search.
pub fn search_url(request: &SearchRequest) -> (r: String)
    ensures
        r@ == search_url_of(request.query@),
{
    let query = percent_encode(request.query.as_str());
    join3("https://mangapill.com", "/search?page=1&q=", query.as_str())
}

/// The full address of a link found on a page of the site.
pub fn absolute_url(reference: &str) -> (r: Result<String, ScrapeError>)
    ensures
        match r {
            Ok(url) => joined_url(site(), reference@) == Some(url@),
            Err(e) => e == ScrapeError::BadUrl && joined_url(site(), reference@) is None,
        },
{
    match join_url("https://mangapill.com", reference) {
        Ok(url) => Ok(url),
        Err(_) => Err(ScrapeError::BadUrl),
    }
}

/// The address on the site of the page that `url` names: the site, then the
/// path of `url`. An address that does not begin with `http` is turned down
/// before it is parsed.
pub open spec fn page_address_of(url: Seq<char>) -> Result<Seq<char>, ScrapeError> {
    if !has_prefix(url, "http"@) {
        Err(ScrapeError::NotHttp)
    } else {
        match path_of_url(url) {
            Some(path) => Ok(site() + path),
            None => Err(ScrapeError::BadUrl),
        }
    }
}

/// The address on the site of the page at `path`.
pub fn site_address(path: &str) -> (r: String)
    ensures
        r@ == site() + path@,
{
    join2("https://mangapill.com", path)
}

/// The address to ask for the page that `url` names.
pub fn page_address(url: &str) -> (r: Result<String, ScrapeError>)
    ensures
        match r {
            Ok(address) => page_address_of(url@) == Ok::<Seq<char>, ScrapeError>(address@),
            Err(e) => page_address_of(url@) == Err::<Seq<char>, ScrapeError>(e),
        },
{
    if !starts_with(url, "http") {
        return Err(ScrapeError::NotHttp);
    }
    match url_path(url) {
        Ok(path) => Ok(site_address(path.as_str())),
        Err(_) => Err(ScrapeError::BadUrl),
    }
}

/// The address to ask for the chapters of a series.
pub fn chapters_url(request: &ChaptersRequest) -> (r: Result<String, ScrapeError>)
    ensures
        match r {
            Ok(address) => page_address_of(request.manga_url@) == Ok::<Seq<char>, ScrapeError>(
                address@,
            ),
            Err(e) => page_address_of(request.manga_url@) == Err::<Seq<char>, ScrapeError>(e),
        },
{
    page_address(request.manga_url.as_str())
}

/// The name of a chapter: the text of its link, or a notice that it has none.
pub open spec fn chapter_name(text: Seq<char>) -> Seq<char> {
    if text.len() == 0 {
        "Unknown Chapter"@
    } else {
        text
    }
}

/// What to keep of an item of a page, given the target of its link and its
/// text: the address of the link where the item counts, nothing where it has
/// no link or, if `needs_text`, no text. A link that cannot be resolved is an
/// error, text or no text.
pub open spec fn kept_link(href: Option<Seq<char>>, text: Seq<char>, needs_text: bool) -> Result<
    Option<Seq<char>>,
    ScrapeError,
> {
    match href {
        None => Ok(None),
        Some(reference) => match joined_url(site(), reference) {
            None => Err(ScrapeError::BadUrl),
            Some(url) => if needs_text && text.len() == 0 {
                Ok(None)
            } else {
                Ok(Some(url))
            },
        },
    }
}

/// The series that an item of the search page stands for, given the address
/// of its link, its title and the source of its picture. An item without
/// title is passed over.
pub fn listed_result(url: String, title: &str, thumbnail: Option<String>) -> (r: Option<
    MangaResult,
>)
    ensures
        match r {
            Some(found) => title@.len() > 0 && found.title@ == title@ && found.url == url
                && found.thumbnail == thumbnail,
            None => title@.len() == 0,
        },
{
    if title.is_empty() {
        None
    } else {
        Some(MangaResult { title: String::from_str(title), url, thumbnail })
    }
}

/// The chapter that a link of a series page stands for, given the address of
/// the link and its text.
pub fn listed_chapter(url: String, text: &str) -> (r: Chapter)
    ensures
        r.url == url,
        r.chapter@ == chapter_name(text@),
{
    let chapter = if text.is_empty() {
        String::from_str("Unknown Chapter")
    } else {
        String::from_str(text)
    };
    Chapter { chapter, url }
}

/// The series that an item of the search page stands for, given the target
/// of its link, its title with the white space at both ends taken off, and
/// the source of its picture. An item without link or title is passed over.
pub fn search_result(href: Option<&str>, title: &str, thumbnail: Option<String>) -> (r: Result<
    Option<MangaResult>,
    ScrapeError,
>)
    ensures
        match r {
            Ok(Some(found)) => kept_link(
                match href {
                    Some(h) => Some(h@),
                    None => None,
                },
                title@,
                true,
            ) == Ok::<Option<Seq<char>>, ScrapeError>(Some(found.url@)) && found.title@ == title@
                && found.thumbnail == thumbnail,
            Ok(None) => kept_link(
                match href {
                    Some(h) => Some(h@),
                    None => None,
                },
                title@,
                true,
            ) == Ok::<Option<Seq<char>>, ScrapeError>(None),
            Err(e) => kept_link(
                match href {
                    Some(h) => Some(h@),
                    None => None,
                },
                title@,
                true,
            ) == Err::<Option<Seq<char>>, ScrapeError>(e),
        },
{
    let reference = match href {
        Some(h) => h,
        None => {
            return Ok(None);
        },
    };
    let url = absolute_url(reference)?;
    Ok(listed_result(url, title, thumbnail))
}

/// The chapter that a link of a series page stands for, given the target of
/// the link and its text with the white space at both ends taken off. A link
/// without target is passed over.
pub fn chapter_entry(href: Option<&str>, text: &str) -> (r: Result<Option<Chapter>, ScrapeError>)
    ensures
        match r {
            Ok(Some(found)) => kept_link(
                match href {
                    Some(h) => Some(h@),
                    None => None,
                },
                text@,
                false,
            ) == Ok::<Option<Seq<char>>, ScrapeError>(Some(found.url@)) && found.chapter@
                == chapter_name(text@),
            Ok(None) => href is None,
            Err(e) => kept_link(
                match href {
                    Some(h) => Some(h@),
                    None => None,
                },
                text@,
                false,
            ) == Err::<Option<Seq<char>>, ScrapeError>(e),
        },
{
    let reference = match href {
        Some(h) => h,
        None => {
            return Ok(None);
        },
    };
    let url = absolute_url(reference)?;
    Ok(Some(listed_chapter(url, text)))
}

/// The pages of a chapter, from the sources of its pictures, in their order.
pub fn pages_of(sources: Vec<String>) -> (r: Vec<Page>)
    ensures
        r@.len() == sources@.len(),
        forall|i: int| 0 <= i < r@.len() ==> (#[trigger] r@[i]).url@ == sources@[i]@,
{
    let mut pages: Vec<Page> = Vec::new();
    let mut i: usize = 0;
    while i < sources.len()
        invariant
            i <= sources.len(),
            pages@.len() == i,
            forall|j: int| 0 <= j < i ==> (#[trigger] pages@[j]).url@ == sources@[j]@,
        decreases sources.len() - i,
    {
        pages.push(Page { url: sources[i].clone() });
        i += 1;
    }
    pages
}

/// The place of the last `.` in `s`, or `-1` where it has none.
pub open spec fn last_dot(s: Seq<char>) -> int
    decreases s.len(),
{
    if s.len() == 0 {
        -1
    } else if s.last() == '.' {
        s.len() - 1
    } else {
        last_dot(s.drop_last())
    }
}

/// What follows the last `.` of `s`; all of `s` where it has none.
pub open spec fn extension_of(s: Seq<char>) -> Seq<char> {
    s.subrange(last_dot(s) + 1, s.len() as int)
}

/// The name of the file that page `number` of a chapter is saved under: the
/// number in at least three digits, and the extension of the picture's
/// address.
pub open spec fn page_filename_of(number: nat, url: Seq<char>) -> Seq<char> {
    padded3(number) + "."@ + extension_of(url)
}

/// What follows the last `.` of `s`.
pub fn extension(s: &str) -> (r: String)
    ensures
        r@ == extension_of(s@),
{
    let len = s.unicode_len();
    let mut i: usize = len;
    assert(s@.take(len as int) =~= s@);
    while i > 0
        invariant
            i <= len,
            len == s@.len(),
            last_dot(s@) == last_dot(s@.take(i as int)),
        decreases i,
    {
        let ghost head = s@.take(i as int);
        assert(head.last() == s@[i - 1]);
        if s.get_char(i - 1) == '.' {
            return String::from_str(s.substring_char(i, len));
        }
        assert(head.drop_last() =~= s@.take(i - 1));
        i -= 1;
    }
    String::from_str(s.substring_char(0, len))
}

/// The name of the file to save page `number` of a chapter under, `url` being
/// the address of its picture.
pub fn page_filename(number: usize, url: &str) -> (r: String)
    ensures
        r@ == page_filename_of(number as nat, url@),
{
    let digits = padded3_text(number as u64);
    let ending = extension(url);
    join3(digits.as_str(), ".", ending.as_str())
}

} // verus!
