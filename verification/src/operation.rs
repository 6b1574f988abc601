//! The operations of the store as state machines.
//!
//! An operation never touches storage. It is started by one of the functions
//! of `handlers`, which hands out the first action together with the
//! operation's state. The driver performs the action and reports the event to
//! `Operation::step`, which answers with the next state and the next action,
//! until the action is `Finish`.
//!
//! The order of the actions is the store's consistency story. An upload is
//! checked in full before anything is written, its blob is written before its
//! record, and a delete removes the record last.

use crate::clock::now_rfc3339;
use crate::digest::{content_hash, content_hash_of};
use crate::error::{AppError, ErrorKind};
use crate::exchange::{Action, ActionView, Event, EventView, Reply, ReplyView};
use crate::headers::{
    collect_tags, content_type_header, find_header, hash_header, header_value, header_views,
    tags_of, Header, HeaderView,
};
use crate::layout::{
    blob_address, has_shard, locate, object_key, object_key_of, shard, shard_of,
};
use crate::record::{BucketRecord, Metadata, MetadataBucket, ObjectRecord};
use crate::text::{eq_ignore_case, lower, lower_text, same_ignoring_case};
use vstd::prelude::*;
use vstd::string::*;

verus! {

/// The state of an operation between two actions.
#[derive(Debug, PartialEq, Eq)]
#[allow(inconsistent_fields)]
pub enum Operation {
    /// An upload that asked whether its bucket exists.
    PutProbe { bucket: String, key: String, headers: Vec<Header>, body: Vec<u8> },
    /// An upload that asked for its blob to be written.
    PutWrite { record_key: String, record: Metadata },
    /// An upload that asked for its record to be stored.
    PutStore { record: Metadata },
    /// A download that asked for the object's record.
    GetFetch { key: String },
    /// A download that asked for the blob.
    GetRead { content_type: String, hash: String },
    /// A delete that asked for the object's record.
    DeleteFetch { record_key: String, key: String },
    /// A delete that asked for the blob to be removed.
    DeleteBlob { record_key: String, shard: String },
    /// A delete that asked for the shard directory to be removed.
    DeleteShard { record_key: String },
    /// A delete that asked for the record to be removed.
    DeleteRecord,
    /// A bucket creation that asked whether the name is taken.
    CreateProbe { bucket: String, headers: Vec<Header> },
    /// A bucket creation that asked for its record to be stored.
    CreateStore { record: MetadataBucket },
    /// A bucket lookup that asked for the record.
    BucketFetch,
    /// An operation that has handed out `Finish`.
    Closed,
}

/// What an `Operation` holds.
#[allow(inconsistent_fields)]
pub enum OperationView {
    PutProbe { bucket: Seq<char>, key: Seq<char>, headers: Seq<HeaderView>, body: Seq<u8> },
    PutWrite { record_key: Seq<char>, record: ObjectRecord },
    PutStore { record: ObjectRecord },
    GetFetch { key: Seq<char> },
    GetRead { content_type: Seq<char>, hash: Seq<char> },
    DeleteFetch { record_key: Seq<char>, key: Seq<char> },
    DeleteBlob { record_key: Seq<char>, shard: Seq<char> },
    DeleteShard { record_key: Seq<char> },
    DeleteRecord,
    CreateProbe { bucket: Seq<char>, headers: Seq<HeaderView> },
    CreateStore { record: BucketRecord },
    BucketFetch,
    Closed,
}

impl View for Operation {
    type V = OperationView;

    open spec fn view(&self) -> OperationView {
        match *self {
            Operation::PutProbe { bucket, key, headers, body } => OperationView::PutProbe {
                bucket: bucket@,
                key: key@,
                headers: header_views(headers@),
                body: body@,
            },
            Operation::PutWrite { record_key, record } => OperationView::PutWrite {
                record_key: record_key@,
                record: record@,
            },
            Operation::PutStore { record } => OperationView::PutStore { record: record@ },
            Operation::GetFetch { key } => OperationView::GetFetch { key: key@ },
            Operation::GetRead { content_type, hash } => OperationView::GetRead {
                content_type: content_type@,
                hash: hash@,
            },
            Operation::DeleteFetch { record_key, key } => OperationView::DeleteFetch {
                record_key: record_key@,
                key: key@,
            },
            Operation::DeleteBlob { record_key, shard } => OperationView::DeleteBlob {
                record_key: record_key@,
                shard: shard@,
            },
            Operation::DeleteShard { record_key } => OperationView::DeleteShard {
                record_key: record_key@,
            },
            Operation::DeleteRecord => OperationView::DeleteRecord,
            Operation::CreateProbe { bucket, headers } => OperationView::CreateProbe {
                bucket: bucket@,
                headers: header_views(headers@),
            },
            Operation::CreateStore { record } => OperationView::CreateStore { record: record@ },
            Operation::BucketFetch => OperationView::BucketFetch,
            Operation::Closed => OperationView::Closed,
        }
    }
}

/// The end of an operation that failed.
pub open spec fn failed(kind: ErrorKind) -> (OperationView, ActionView) {
    (OperationView::Closed, ActionView::Finish(Err(AppError(kind))))
}

/// The end of an operation that succeeded.
pub open spec fn done(reply: ReplyView) -> (OperationView, ActionView) {
    (OperationView::Closed, ActionView::Finish(Ok(reply)))
}

/// The record of an upload whose bytes hash to `digest`, or the reason why
/// the upload is turned down. The checks are made in this order: the content
/// hash is declared, the content type is declared, the declared hash has a
/// shard, and it is `digest`, ASCII case set aside. The record keeps `digest`
/// itself, so the hash that is stored is always in lower case.
pub open spec fn upload_record(
    headers: Seq<HeaderView>,
    digest: Seq<char>,
    now: Seq<char>,
) -> Result<ObjectRecord, AppError> {
    match find_header(headers, hash_header()) {
        None => Err(AppError(ErrorKind::Validation)),
        Some(declared) => match find_header(headers, content_type_header()) {
            None => Err(AppError(ErrorKind::Validation)),
            Some(content_type) => {
                if !has_shard(declared) {
                    Err(AppError(ErrorKind::Validation))
                } else if !same_ignoring_case(declared, digest) {
                    Err(AppError(ErrorKind::HashMismatch))
                } else {
                    Ok(
                        ObjectRecord {
                            created_at: now,
                            tags: tags_of(headers),
                            hash: digest,
                            content_type,
                        },
                    )
                }
            },
        },
    }
}

/// What an upload does once its bucket is known to exist, `digest` being the
/// content hash of `body`: it ends with the reason why it is turned down, or
/// asks for its blob to be written.
pub open spec fn upload_step(
    bucket: Seq<char>,
    key: Seq<char>,
    headers: Seq<HeaderView>,
    body: Seq<u8>,
    digest: Seq<char>,
    now: Seq<char>,
) -> (OperationView, ActionView) {
    match upload_record(headers, digest, now) {
        Err(e) => failed(e.0),
        Ok(record) => (
            OperationView::PutWrite { record_key: object_key_of(bucket, key), record },
            ActionView::WriteBlob { at: blob_address(record.hash, key), body },
        ),
    }
}

/// The next state and action of operation `op` on `event`, `now` being the
/// time of the step. An event that is no answer to the action that the
/// operation asked for ends it with `Io`.
pub open spec fn advance(op: OperationView, event: EventView, now: Seq<char>) -> (
    OperationView,
    ActionView,
) {
    match op {
        OperationView::PutProbe { bucket, key, headers, body } => match event {
            EventView::Present => upload_step(
                bucket,
                key,
                headers,
                body,
                content_hash_of(body),
                now,
            ),
            EventView::Absent => failed(ErrorKind::BucketNotFound),
            _ => failed(ErrorKind::Io),
        },
        OperationView::PutWrite { record_key, record } => match event {
            EventView::Completed => (
                OperationView::PutStore { record },
                ActionView::StoreObject { key: record_key, record },
            ),
            _ => failed(ErrorKind::Io),
        },
        OperationView::PutStore { record } => match event {
            EventView::Completed => done(ReplyView::Stored(record)),
            _ => failed(ErrorKind::Io),
        },
        OperationView::GetFetch { key } => match event {
            EventView::Object(record) => {
                if has_shard(record.hash) {
                    (
                        OperationView::GetRead {
                            content_type: record.content_type,
                            hash: record.hash,
                        },
                        ActionView::ReadBlob { at: blob_address(record.hash, key) },
                    )
                } else {
                    failed(ErrorKind::Encoding)
                }
            },
            EventView::Absent => failed(ErrorKind::ObjectNotFound),
            EventView::Undecodable => failed(ErrorKind::Encoding),
            _ => failed(ErrorKind::Io),
        },
        OperationView::GetRead { content_type, hash } => match event {
            EventView::Blob(body) => done(ReplyView::Object { body, content_type, hash }),
            EventView::BlobMissing => failed(ErrorKind::Inconsistent),
            _ => failed(ErrorKind::Io),
        },
        OperationView::DeleteFetch { record_key, key } => match event {
            EventView::Object(record) => {
                if has_shard(record.hash) {
                    (
                        OperationView::DeleteBlob { record_key, shard: shard_of(record.hash) },
                        ActionView::RemoveBlob { at: blob_address(record.hash, key) },
                    )
                } else {
                    failed(ErrorKind::Encoding)
                }
            },
            EventView::Absent => failed(ErrorKind::ObjectNotFound),
            EventView::Undecodable => failed(ErrorKind::Encoding),
            _ => failed(ErrorKind::Io),
        },
        OperationView::DeleteBlob { record_key, shard } => match event {
            EventView::Completed => (
                OperationView::DeleteShard { record_key },
                ActionView::RemoveShard { shard },
            ),
            _ => failed(ErrorKind::Io),
        },
        OperationView::DeleteShard { record_key } => (
            OperationView::DeleteRecord,
            ActionView::RemoveRecord { key: record_key },
        ),
        OperationView::DeleteRecord => match event {
            EventView::Completed => done(ReplyView::Deleted),
            _ => failed(ErrorKind::Io),
        },
        OperationView::CreateProbe { bucket, headers } => match event {
            EventView::Absent => {
                let record = BucketRecord { created_at: now, tags: tags_of(headers) };
                (
                    OperationView::CreateStore { record },
                    ActionView::StoreBucket { name: bucket, record },
                )
            },
            EventView::Present => failed(ErrorKind::BucketAlreadyExists),
            _ => failed(ErrorKind::Io),
        },
        OperationView::CreateStore { record } => match event {
            EventView::Completed => done(ReplyView::Bucket(record)),
            _ => failed(ErrorKind::Io),
        },
        OperationView::BucketFetch => match event {
            EventView::Bucket(record) => done(ReplyView::Bucket(record)),
            EventView::Absent => failed(ErrorKind::BucketNotFound),
            EventView::Undecodable => failed(ErrorKind::Encoding),
            _ => failed(ErrorKind::Io),
        },
        OperationView::Closed => failed(ErrorKind::Io),
    }
}

/// A hash that equals one with a shard, ASCII case set aside, has a shard
/// too.
pub proof fn lemma_shard_ignores_case(a: Seq<char>, b: Seq<char>)
    requires
        has_shard(a),
        same_ignoring_case(a, b),
    ensures
        has_shard(b),
{
    assert(lower_text(a).len() == lower_text(b).len());
    assert(lower_text(a)[0] == lower_text(b)[0]);
    assert(lower_text(a)[1] == lower_text(b)[1]);
    assert(lower(a[0]) == lower(b[0]));
    assert(lower(a[1]) == lower(b[1]));
}

fn fail(kind: ErrorKind) -> (r: (Operation, Action))
    ensures
        (r.0@, r.1@) == failed(kind),
{
    (Operation::Closed, Action::Finish(Err(AppError(kind))))
}

fn finish(reply: Reply) -> (r: (Operation, Action))
    ensures
        (r.0@, r.1@) == done(reply@),
{
    (Operation::Closed, Action::Finish(Ok(reply)))
}

/// Checks an upload against the content hash `digest` of its bytes and makes
/// its record.
pub fn check_upload(headers: &Vec<Header>, digest: String, now: &str) -> (r: Result<
    Metadata,
    AppError,
>)
    ensures
        match r {
            Ok(record) => upload_record(header_views(headers@), digest@, now@) == Ok::<
                ObjectRecord,
                AppError,
            >(record@),
            Err(e) => upload_record(header_views(headers@), digest@, now@) == Err::<
                ObjectRecord,
                AppError,
            >(e),
        },
{
    let declared = match header_value(headers, "x-hash") {
        Some(v) => v,
        None => {
            return Err(AppError(ErrorKind::Validation));
        },
    };
    let content_type = match header_value(headers, "content-type") {
        Some(v) => v,
        None => {
            return Err(AppError(ErrorKind::Validation));
        },
    };
    if shard(declared.as_str()).is_none() {
        return Err(AppError(ErrorKind::Validation));
    }
    if !eq_ignore_case(declared.as_str(), digest.as_str()) {
        return Err(AppError(ErrorKind::HashMismatch));
    }
    Ok(
        Metadata {
            created_at: String::from_str(now),
            tags: collect_tags(headers),
            hash: digest,
            content_type: content_type.clone(),
        },
    )
}

/// Takes an upload whose bucket exists one step on, `digest` being the
/// content hash of `body`.
pub fn accept_upload(
    bucket: String,
    key: String,
    headers: Vec<Header>,
    body: Vec<u8>,
    digest: String,
    now: &str,
) -> (r: (Operation, Action))
    ensures
        (r.0@, r.1@) == upload_step(
            bucket@,
            key@,
            header_views(headers@),
            body@,
            digest@,
            now@,
        ),
{
    match check_upload(&headers, digest, now) {
        Err(e) => fail(e.0),
        Ok(record) => {
            // The digest has a shard, as the declared hash that it matches has one.
            proof {
                let declared = find_header(header_views(headers@), hash_header())->0;
                lemma_shard_ignores_case(declared, record.hash@);
            }
            match locate(record.hash.as_str(), key.as_str()) {
                Some(at) => (
                    Operation::PutWrite { record_key: object_key(bucket.as_str(), key.as_str()), record },
                    Action::WriteBlob { at, body },
                ),
                None => fail(ErrorKind::Io),
            }
        },
    }
}

impl Operation {
    /// Whether the operation has handed out `Finish`.
    pub fn is_closed(&self) -> (r: bool)
        ensures
            r == (self@ is Closed),
    {
        match self {
            Operation::Closed => true,
            _ => false,
        }
    }

    /// Takes the operation one step on, `now` being the time of the step.
    pub fn step_at(self, event: Event, now: &str) -> (r: (Operation, Action))
        ensures
            (r.0@, r.1@) == advance(self@, event@, now@),
    {
        match self {
            Operation::PutProbe { bucket, key, headers, body } => match event {
                Event::Present => {
                    let digest = content_hash(body.as_slice());
                    accept_upload(bucket, key, headers, body, digest, now)
                },
                Event::Absent => fail(ErrorKind::BucketNotFound),
                _ => fail(ErrorKind::Io),
            },
            Operation::PutWrite { record_key, record } => match event {
                Event::Completed => {
                    let kept = record.copy();
                    (
                        Operation::PutStore { record: kept },
                        Action::StoreObject { key: record_key, record },
                    )
                },
                _ => fail(ErrorKind::Io),
            },
            Operation::PutStore { record } => match event {
                Event::Completed => finish(Reply::Stored(record)),
                _ => fail(ErrorKind::Io),
            },
            Operation::GetFetch { key } => match event {
                Event::Object(record) => match locate(record.hash.as_str(), key.as_str()) {
                    Some(at) => (
                        Operation::GetRead { content_type: record.content_type, hash: record.hash },
                        Action::ReadBlob { at },
                    ),
                    None => fail(ErrorKind::Encoding),
                },
                Event::Absent => fail(ErrorKind::ObjectNotFound),
                Event::Undecodable => fail(ErrorKind::Encoding),
                _ => fail(ErrorKind::Io),
            },
            Operation::GetRead { content_type, hash } => match event {
                Event::Blob(body) => finish(Reply::Object { body, content_type, hash }),
                Event::BlobMissing => fail(ErrorKind::Inconsistent),
                _ => fail(ErrorKind::Io),
            },
            Operation::DeleteFetch { record_key, key } => match event {
                Event::Object(record) => match locate(record.hash.as_str(), key.as_str()) {
                    Some(at) => {
                        let shard = at.shard.clone();
                        (Operation::DeleteBlob { record_key, shard }, Action::RemoveBlob { at })
                    },
                    None => fail(ErrorKind::Encoding),
                },
                Event::Absent => fail(ErrorKind::ObjectNotFound),
                Event::Undecodable => fail(ErrorKind::Encoding),
                _ => fail(ErrorKind::Io),
            },
            Operation::DeleteBlob { record_key, shard } => match event {
                Event::Completed => (
                    Operation::DeleteShard { record_key },
                    Action::RemoveShard { shard },
                ),
                _ => fail(ErrorKind::Io),
            },
            Operation::DeleteShard { record_key } => (
                Operation::DeleteRecord,
                Action::RemoveRecord { key: record_key },
            ),
            Operation::DeleteRecord => match event {
                Event::Completed => finish(Reply::Deleted),
                _ => fail(ErrorKind::Io),
            },
            Operation::CreateProbe { bucket, headers } => match event {
                Event::Absent => {
                    let record = MetadataBucket {
                        created_at: String::from_str(now),
                        tags: collect_tags(&headers),
                    };
                    let kept = record.copy();
                    (
                        Operation::CreateStore { record: kept },
                        Action::StoreBucket { name: bucket, record },
                    )
                },
                Event::Present => fail(ErrorKind::BucketAlreadyExists),
                _ => fail(ErrorKind::Io),
            },
            Operation::CreateStore { record } => match event {
                Event::Completed => finish(Reply::Bucket(record)),
                _ => fail(ErrorKind::Io),
            },
            Operation::BucketFetch => match event {
                Event::Bucket(record) => finish(Reply::Bucket(record)),
                Event::Absent => fail(ErrorKind::BucketNotFound),
                Event::Undecodable => fail(ErrorKind::Encoding),
                _ => fail(ErrorKind::Io),
            },
            Operation::Closed => fail(ErrorKind::Io),
        }
    }

    /// Takes the operation one step on, at the time that the clock shows. The
    /// clock is read only for the steps that make a record.
    pub fn step(self, event: Event) -> (r: (Operation, Action))
        ensures
            exists|now: Seq<char>| (r.0@, r.1@) == #[trigger] advance(self@, event@, now),
    {
        let now = match &self {
            Operation::PutProbe { .. } | Operation::CreateProbe { .. } => now_rfc3339(),
            _ => String::new(),
        };
        let r = self.step_at(event, now.as_str());
        assert((r.0@, r.1@) == advance(self@, event@, now@));
        r
    }
}

} // verus!
