//! The manga catalogue: the shapes of its entries and requests, and the
//! decisions that serving its pages takes.

use crate::decimal::{signed_decimal, signed_decimal_text};
use crate::text::{contains, ends_with, eq_text, has_infix, has_suffix, join2};
use vstd::prelude::*;
use vstd::string::*;

verus! {

/// A series in the catalogue.
#[derive(Debug, PartialEq, Eq)]
pub struct Manga {
    pub anilist_id: i64,
    pub title: String,
    pub author: Option<String>,
    pub description: Option<String>,
    pub storage_path: String,
    pub added_at: String,
    pub updated_at: String,
}

/// The fields of a series that a request may change.
#[derive(Debug, PartialEq, Eq)]
pub struct UpdateMangaRequest {
    pub title: Option<String>,
    pub author: Option<String>,
    pub description: Option<String>,
}

/// A search on the source site.
#[derive(Debug, PartialEq, Eq)]
pub struct SearchRequest {
    pub query: String,
}

/// A request for the chapters of a series on the source site.
#[derive(Debug, PartialEq, Eq)]
pub struct ChaptersRequest {
    pub manga_url: String,
}

/// The answer to a request to download a chapter.
#[derive(Debug, PartialEq, Eq)]
pub struct DownloadResponse {
    pub success: bool,
    pub message: String,
    pub pages_downloaded: usize,
}

/// A series that a search found.
#[derive(Debug, PartialEq, Eq)]
pub struct MangaResult {
    pub title: String,
    pub url: String,
    pub thumbnail: Option<String>,
}

/// A page of a chapter on the source site.
#[derive(Debug, PartialEq, Eq)]
pub struct Page {
    pub url: String,
}

/// The lower-case form of a text, as `str::to_lowercase` gives it.
pub uninterp spec fn lowercase(s: Seq<char>) -> Seq<char>;

/// Calls `str::to_lowercase`. Trusted: the result is the lower-case form of
/// the input, a function of the input alone.
#[verifier::external_body]
fn to_lowercase(s: &str) -> (r: String)
    ensures
        r@ == lowercase(s@),
{
    s.to_lowercase()
}

/// Whether a lower-case file name ends like the name of an image.
pub open spec fn has_image_suffix(lower: Seq<char>) -> bool {
    has_suffix(lower, ".jpg"@) || has_suffix(lower, ".jpeg"@) || has_suffix(lower, ".png"@)
        || has_suffix(lower, ".gif"@) || has_suffix(lower, ".webp"@)
}

/// Whether `lower`, a file name in lower case, ends like the name of an
/// image.
pub fn has_image_extension(lower: &str) -> (r: bool)
    ensures
        r == has_image_suffix(lower@),
{
    ends_with(lower, ".jpg") || ends_with(lower, ".jpeg") || ends_with(lower, ".png") || ends_with(
        lower,
        ".gif",
    ) || ends_with(lower, ".webp")
}

/// Whether a file is an image, by the ending of its name, case set aside.
pub fn is_image_file(filename: &str) -> (r: bool)
    ensures
        r == has_image_suffix(lowercase(filename@)),
{
    let lower = to_lowercase(filename);
    has_image_extension(lower.as_str())
}

/// The content type of a page, by the extension of its file.
pub open spec fn content_type_of(extension: Option<Seq<char>>) -> Seq<char> {
    match extension {
        Some(e) => if e == "jpg"@ || e == "jpeg"@ {
            "image/jpeg"@
        } else if e == "png"@ {
            "image/png"@
        } else if e == "gif"@ {
            "image/gif"@
        } else if e == "webp"@ {
            "image/webp"@
        } else {
            "application/octet-stream"@
        },
        None => "application/octet-stream"@,
    }
}

/// The content type to serve a page with, by the extension of its file.
pub fn page_content_type(extension: Option<&str>) -> (r: String)
    ensures
        r@ == content_type_of(
            match extension {
                Some(e) => Some(e@),
                None => None,
            },
        ),
{
    match extension {
        Some(e) => {
            if eq_text(e, "jpg") || eq_text(e, "jpeg") {
                String::from_str("image/jpeg")
            } else if eq_text(e, "png") {
                String::from_str("image/png")
            } else if eq_text(e, "gif") {
                String::from_str("image/gif")
            } else if eq_text(e, "webp") {
                String::from_str("image/webp")
            } else {
                String::from_str("application/octet-stream")
            }
        },
        None => String::from_str("application/octet-stream"),
    }
}

/// The place of page `page_num` among the `count` pages of a chapter, pages
/// being numbered from one.
pub fn page_index(page_num: usize, count: usize) -> (r: Option<usize>)
    ensures
        match r {
            Some(i) => 1 <= page_num <= count && i == page_num - 1,
            None => page_num == 0 || page_num > count,
        },
{
    if page_num == 0 || page_num > count {
        None
    } else {
        Some(page_num - 1)
    }
}

/// The title to file a series under: the English one, else the romanised
/// one, else a notice that there is none.
pub open spec fn title_of(english: Seq<char>, romaji: Seq<char>) -> Seq<char> {
    if english.len() > 0 {
        english
    } else if romaji.len() > 0 {
        romaji
    } else {
        "No title found"@
    }
}

/// Picks the title to file a series under.
pub fn pick_title(english: &str, romaji: &str) -> (r: String)
    ensures
        r@ == title_of(english@, romaji@),
{
    if !english.is_empty() {
        String::from_str(english)
    } else if !romaji.is_empty() {
        String::from_str(romaji)
    } else {
        String::from_str("No title found")
    }
}

/// One entry of the staff of a series.
#[derive(Debug, PartialEq, Eq)]
pub struct StaffCredit {
    pub name: String,
    pub description: Option<String>,
}

/// What a `StaffCredit` holds.
pub struct StaffCreditView {
    pub name: Seq<char>,
    pub description: Option<Seq<char>>,
}

impl View for StaffCredit {
    type V = StaffCreditView;

    open spec fn view(&self) -> StaffCreditView {
        StaffCreditView {
            name: self.name@,
            description: match self.description {
                Some(d) => Some(d@),
                None => None,
            },
        }
    }
}

/// What a list of staff entries holds.
pub open spec fn staff_views(staff: Seq<StaffCredit>) -> Seq<StaffCreditView> {
    staff.map_values(|c: StaffCredit| c@)
}

/// Whether a staff entry is that of the author: whether its description
/// speaks of the story or of the creator.
pub open spec fn credits_author(credit: StaffCreditView) -> bool {
    match credit.description {
        Some(d) => has_infix(d, "Story"@) || has_infix(d, "Original Creator"@),
        None => false,
    }
}

/// The name of the first staff entry that is the author's.
pub open spec fn author_of(staff: Seq<StaffCreditView>) -> Option<Seq<char>>
    decreases staff.len(),
{
    if staff.len() == 0 {
        None
    } else if credits_author(staff[0]) {
        Some(staff[0].name)
    } else {
        author_of(staff.drop_first())
    }
}

/// Whether a staff entry is that of the author.
pub fn is_author_credit(credit: &StaffCredit) -> (r: bool)
    ensures
        r == credits_author(credit@),
{
    match &credit.description {
        Some(d) => contains(d.as_str(), "Story") || contains(d.as_str(), "Original Creator"),
        None => false,
    }
}

/// Finds the author of a series among its staff.
pub fn find_author(staff: &Vec<StaffCredit>) -> (r: Option<String>)
    ensures
        match r {
            Some(name) => author_of(staff_views(staff@)) == Some(name@),
            None => author_of(staff_views(staff@)) is None,
        },
{
    let ghost all = staff_views(staff@);
    let mut i: usize = 0;
    assert(all.skip(0) =~= all);
    while i < staff.len()
        invariant
            i <= staff.len(),
            all == staff_views(staff@),
            author_of(all) == author_of(all.skip(i as int)),
        decreases staff.len() - i,
    {
        let ghost rest = all.skip(i as int);
        assert(rest[0] == staff@[i as int]@);
        if is_author_credit(&staff[i]) {
            return Some(staff[i].name.clone());
        }
        assert(rest.drop_first() =~= all.skip(i + 1));
        i += 1;
    }
    assert(all.skip(i as int).len() == 0);
    None
}

/// Whether an entry of a chapter archive is a page: a file, not a directory,
/// whose name is that of an image.
pub fn is_page_entry(name: &str, is_dir: bool) -> (r: bool)
    ensures
        r == (!is_dir && has_image_suffix(lowercase(name@))),
{
    !is_dir && is_image_file(name)
}

/// The directory of a series below the image root: `data/manga/<id>`.
pub fn manga_storage_path(anilist_id: i64) -> (r: String)
    ensures
        r@ == "data/manga/"@ + signed_decimal(anilist_id as int),
{
    let id = signed_decimal_text(anilist_id);
    join2("data/manga/", id.as_str())
}

impl DownloadResponse {
    /// The answer for a chapter that has no pages.
    pub fn no_pages() -> (r: DownloadResponse)
        ensures
            !r.success,
            r.message@ == "No pages found"@,
            r.pages_downloaded == 0,
    {
        DownloadResponse {
            success: false,
            message: String::from_str("No pages found"),
            pages_downloaded: 0,
        }
    }
}

} // verus!
