//! The records that the metadata store keeps, one per bucket and one per
//! object.

use crate::headers::{Header, HeaderView};
use crate::text::{join3, texts};
use vstd::prelude::*;
use vstd::string::*;

verus! {

/// The record of an object.
#[derive(Debug, PartialEq, Eq)]
pub struct Metadata {
    pub created_at: String,
    pub tags: Vec<String>,
    pub hash: String,
    pub content_type: String,
}

/// What a `Metadata` holds.
pub struct ObjectRecord {
    pub created_at: Seq<char>,
    pub tags: Seq<Seq<char>>,
    pub hash: Seq<char>,
    pub content_type: Seq<char>,
}

impl View for Metadata {
    type V = ObjectRecord;

    open spec fn view(&self) -> ObjectRecord {
        ObjectRecord {
            created_at: self.created_at@,
            tags: texts(self.tags@),
            hash: self.hash@,
            content_type: self.content_type@,
        }
    }
}

/// The record of a bucket.
#[derive(Debug, PartialEq, Eq)]
pub struct MetadataBucket {
    pub created_at: String,
    pub tags: Vec<String>,
}

/// What a `MetadataBucket` holds.
pub struct BucketRecord {
    pub created_at: Seq<char>,
    pub tags: Seq<Seq<char>>,
}

impl View for MetadataBucket {
    type V = BucketRecord;

    open spec fn view(&self) -> BucketRecord {
        BucketRecord { created_at: self.created_at@, tags: texts(self.tags@) }
    }
}

/// A copy of a list of strings.
pub fn copy_texts(v: &Vec<String>) -> (r: Vec<String>)
    ensures
        texts(r@) == texts(v@),
{
    let mut out: Vec<String> = Vec::new();
    let mut i: usize = 0;
    while i < v.len()
        invariant
            i <= v.len(),
            out@.len() == i,
            forall|j: int| 0 <= j < i ==> out@[j]@ == v@[j]@,
        decreases v.len() - i,
    {
        out.push(v[i].clone());
        i += 1;
    }
    assert(texts(out@) =~= texts(v@));
    out
}

impl Metadata {
    /// A copy of the record.
    pub fn copy(&self) -> (r: Metadata)
        ensures
            r@ == self@,
    {
        Metadata {
            created_at: self.created_at.clone(),
            tags: copy_texts(&self.tags),
            hash: self.hash.clone(),
            content_type: self.content_type.clone(),
        }
    }
}

impl MetadataBucket {
    /// A copy of the record.
    pub fn copy(&self) -> (r: MetadataBucket)
        ensures
            r@ == self@,
    {
        MetadataBucket { created_at: self.created_at.clone(), tags: copy_texts(&self.tags) }
    }
}

/// A content hash between double quotes, as an entity tag is written.
pub open spec fn quoted(hash: Seq<char>) -> Seq<char> {
    "\""@ + hash + "\""@
}

/// The cache directive of an object: its content may be kept for a year and
/// never changes.
pub open spec fn cache_directive() -> Seq<char> {
    "public, max-age=31536000, immutable"@
}

/// The attributes that go out with the bytes of an object.
pub open spec fn object_headers(content_type: Seq<char>, hash: Seq<char>) -> Seq<HeaderView> {
    seq![
        HeaderView { name: "Content-Type"@, value: content_type },
        HeaderView { name: "x-hash"@, value: quoted(hash) },
        HeaderView { name: "ETag"@, value: quoted(hash) },
        HeaderView { name: "Cache-Control"@, value: cache_directive() },
    ]
}

/// The entity tag of a content hash.
pub fn etag(hash: &str) -> (r: String)
    ensures
        r@ == quoted(hash@),
{
    join3("\"", hash, "\"")
}

/// The attributes to send with the bytes of an object.
pub fn response_headers(content_type: &str, hash: &str) -> (r: Vec<Header>)
    ensures
        crate::headers::header_views(r@) == object_headers(content_type@, hash@),
{
    let mut out: Vec<Header> = Vec::new();
    out.push(Header { name: String::from_str("Content-Type"), value: String::from_str(content_type) });
    out.push(Header { name: String::from_str("x-hash"), value: etag(hash) });
    out.push(Header { name: String::from_str("ETag"), value: etag(hash) });
    out.push(
        Header {
            name: String::from_str("Cache-Control"),
            value: String::from_str("public, max-age=31536000, immutable"),
        },
    );
    assert(crate::headers::header_views(out@) =~= object_headers(content_type@, hash@));
    out
}

} // verus!
