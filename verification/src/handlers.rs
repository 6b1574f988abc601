//! The five requests that the store serves. Each function starts an
//! operation: it hands out the operation's state and its first action.

use crate::exchange::{Action, ActionView};
use crate::headers::{header_views, Header, HeaderView};
use crate::layout::{object_key, object_key_of};
use crate::operation::{Operation, OperationView};
use vstd::prelude::*;
use vstd::string::*;

verus! {

/// How an upload starts: by asking whether the bucket exists.
pub open spec fn begin_put(
    bucket: Seq<char>,
    key: Seq<char>,
    headers: Seq<HeaderView>,
    body: Seq<u8>,
) -> (OperationView, ActionView) {
    (
        OperationView::PutProbe { bucket, key, headers, body },
        ActionView::ProbeRecord { key: bucket },
    )
}

/// How a download starts: by asking for the object's record.
pub open spec fn begin_get(bucket: Seq<char>, key: Seq<char>) -> (OperationView, ActionView) {
    (OperationView::GetFetch { key }, ActionView::FetchObject { key: object_key_of(bucket, key) })
}

/// How a delete starts: by asking for the object's record.
pub open spec fn begin_delete(bucket: Seq<char>, key: Seq<char>) -> (OperationView, ActionView) {
    (
        OperationView::DeleteFetch { record_key: object_key_of(bucket, key), key },
        ActionView::FetchObject { key: object_key_of(bucket, key) },
    )
}

/// How the creation of a bucket starts: by asking whether the name is taken.
pub open spec fn begin_create(bucket: Seq<char>, headers: Seq<HeaderView>) -> (
    OperationView,
    ActionView,
) {
    (OperationView::CreateProbe { bucket, headers }, ActionView::ProbeRecord { key: bucket })
}

/// How a bucket lookup starts: by asking for the bucket's record.
pub open spec fn begin_lookup(bucket: Seq<char>) -> (OperationView, ActionView) {
    (OperationView::BucketFetch, ActionView::FetchBucket { name: bucket })
}

/// Starts the upload of `body` as object `key` of `bucket`. The headers
/// declare the content hash (`x-hash`), the content type (`content-type`) and
/// the tags (`x-kv-*`).
pub fn put_obj(bucket: &str, key: &str, headers: Vec<Header>, body: Vec<u8>) -> (r: (
    Operation,
    Action,
))
    ensures
        (r.0@, r.1@) == begin_put(bucket@, key@, header_views(headers@), body@),
{
    (
        Operation::PutProbe {
            bucket: String::from_str(bucket),
            key: String::from_str(key),
            headers,
            body,
        },
        Action::ProbeRecord { key: String::from_str(bucket) },
    )
}

/// Starts the download of object `key` of `bucket`.
pub fn get_obj(bucket: &str, key: &str) -> (r: (Operation, Action))
    ensures
        (r.0@, r.1@) == begin_get(bucket@, key@),
{
    (
        Operation::GetFetch { key: String::from_str(key) },
        Action::FetchObject { key: object_key(bucket, key) },
    )
}

/// Starts the deletion of object `key` of `bucket`.
pub fn delete_obj(bucket: &str, key: &str) -> (r: (Operation, Action))
    ensures
        (r.0@, r.1@) == begin_delete(bucket@, key@),
{
    (
        Operation::DeleteFetch { record_key: object_key(bucket, key), key: String::from_str(key) },
        Action::FetchObject { key: object_key(bucket, key) },
    )
}

/// Starts the creation of `bucket`. The headers carry its tags (`x-kv-*`).
pub fn new_bucket(bucket: &str, headers: Vec<Header>) -> (r: (Operation, Action))
    ensures
        (r.0@, r.1@) == begin_create(bucket@, header_views(headers@)),
{
    (
        Operation::CreateProbe { bucket: String::from_str(bucket), headers },
        Action::ProbeRecord { key: String::from_str(bucket) },
    )
}

/// Starts the lookup of `bucket`.
pub fn get_bucket(bucket: &str) -> (r: (Operation, Action))
    ensures
        (r.0@, r.1@) == begin_lookup(bucket@),
{
    (Operation::BucketFetch, Action::FetchBucket { name: String::from_str(bucket) })
}

} // verus!
