//! The attributes that come with a request, as name and value pairs in the
//! order in which they were received.

use crate::text::{eq_ignore_case, has_prefix_ignoring_case, same_ignoring_case, starts_with_ignore_case, texts};
use vstd::prelude::*;
use vstd::string::*;

verus! {

/// One attribute of a request.
#[derive(Debug, PartialEq, Eq)]
pub struct Header {
    pub name: String,
    pub value: String,
}

/// What a `Header` holds.
pub struct HeaderView {
    pub name: Seq<char>,
    pub value: Seq<char>,
}

impl View for Header {
    type V = HeaderView;

    open spec fn view(&self) -> HeaderView {
        HeaderView { name: self.name@, value: self.value@ }
    }
}

impl Header {
    pub fn new(name: &str, value: &str) -> (r: Header)
        ensures
            r@ == (HeaderView { name: name@, value: value@ }),
    {
        Header { name: String::from_str(name), value: String::from_str(value) }
    }
}

/// What a list of headers holds.
pub open spec fn header_views(headers: Seq<Header>) -> Seq<HeaderView> {
    headers.map_values(|h: Header| h@)
}

/// The name of the attribute that declares the content hash.
pub open spec fn hash_header() -> Seq<char> {
    "x-hash"@
}

/// The name of the attribute that declares the content type.
pub open spec fn content_type_header() -> Seq<char> {
    "content-type"@
}

/// The marker that a tag attribute's name begins with.
pub open spec fn tag_marker() -> Seq<char> {
    "x-kv-"@
}

/// The value of the first header called `name`, ASCII case set aside.
pub open spec fn find_header(headers: Seq<HeaderView>, name: Seq<char>) -> Option<Seq<char>>
    decreases headers.len(),
{
    if headers.len() == 0 {
        None
    } else if same_ignoring_case(headers[0].name, name) {
        Some(headers[0].value)
    } else {
        find_header(headers.drop_first(), name)
    }
}

/// The values of the headers whose name begins with the tag marker, in the
/// order received, repetitions kept.
pub open spec fn tags_of(headers: Seq<HeaderView>) -> Seq<Seq<char>>
    decreases headers.len(),
{
    if headers.len() == 0 {
        Seq::empty()
    } else {
        let before = tags_of(headers.drop_last());
        if has_prefix_ignoring_case(headers.last().name, tag_marker()) {
            before.push(headers.last().value)
        } else {
            before
        }
    }
}

/// Looks a header up by name.
pub fn header_value<'a>(headers: &'a Vec<Header>, name: &str) -> (r: Option<&'a String>)
    ensures
        match r {
            Some(v) => find_header(header_views(headers@), name@) == Some(v@),
            None => find_header(header_views(headers@), name@) is None,
        },
{
    let ghost all = header_views(headers@);
    let mut i: usize = 0;
    assert(all.skip(0) =~= all);
    while i < headers.len()
        invariant
            i <= headers.len(),
            all == header_views(headers@),
            find_header(all, name@) == find_header(all.skip(i as int), name@),
        decreases headers.len() - i,
    {
        let ghost rest = all.skip(i as int);
        assert(rest[0] == headers@[i as int]@);
        if eq_ignore_case(headers[i].name.as_str(), name) {
            return Some(&headers[i].value);
        }
        assert(rest.drop_first() =~= all.skip(i + 1));
        i += 1;
    }
    assert(all.skip(i as int).len() == 0);
    None
}

/// Collects the tags that a request carries.
pub fn collect_tags(headers: &Vec<Header>) -> (r: Vec<String>)
    ensures
        texts(r@) == tags_of(header_views(headers@)),
{
    let ghost all = header_views(headers@);
    let mut tags: Vec<String> = Vec::new();
    let mut i: usize = 0;
    assert(all.take(0) =~= Seq::empty());
    assert(texts(tags@) =~= Seq::empty());
    while i < headers.len()
        invariant
            i <= headers.len(),
            all == header_views(headers@),
            texts(tags@) == tags_of(all.take(i as int)),
        decreases headers.len() - i,
    {
        let ghost next = all.take(i + 1);
        assert(next.drop_last() =~= all.take(i as int));
        assert(next.last() == headers@[i as int]@);
        if starts_with_ignore_case(headers[i].name.as_str(), "x-kv-") {
            let ghost before = tags@;
            tags.push(headers[i].value.clone());
            assert(texts(tags@) =~= texts(before).push(headers@[i as int].value@));
        }
        i += 1;
    }
    assert(all.take(i as int) =~= all);
    tags
}

} // verus!
