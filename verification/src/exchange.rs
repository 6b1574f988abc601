//! What passes between an operation and the driver that serves it: the
//! actions that an operation asks for, the events that report how an action
//! went, and the reply that an operation ends with.
//!
//! The driver owns the metadata store and the blob tree. It performs one
//! action at a time and hands back exactly one event for it.

use crate::error::AppError;
use crate::layout::{BlobAddress, BlobLocation};
use crate::record::{BucketRecord, Metadata, MetadataBucket, ObjectRecord};
use vstd::prelude::*;
use vstd::string::*;

verus! {

/// What a finished operation hands to its caller.
#[derive(Debug, PartialEq, Eq)]
pub enum Reply {
    /// An object was stored under this record.
    Stored(Metadata),
    /// The bytes of an object, with its content type and content hash.
    Object { body: Vec<u8>, content_type: String, hash: String },
    /// An object was deleted.
    Deleted,
    /// The record of a bucket.
    Bucket(MetadataBucket),
}

/// What a `Reply` holds.
pub enum ReplyView {
    Stored(ObjectRecord),
    Object { body: Seq<u8>, content_type: Seq<char>, hash: Seq<char> },
    Deleted,
    Bucket(BucketRecord),
}

impl View for Reply {
    type V = ReplyView;

    open spec fn view(&self) -> ReplyView {
        match *self {
            Reply::Stored(record) => ReplyView::Stored(record@),
            Reply::Object { body, content_type, hash } => ReplyView::Object {
                body: body@,
                content_type: content_type@,
                hash: hash@,
            },
            Reply::Deleted => ReplyView::Deleted,
            Reply::Bucket(record) => ReplyView::Bucket(record@),
        }
    }
}

/// What the outcome of an operation holds.
pub open spec fn outcome_view(outcome: Result<Reply, AppError>) -> Result<ReplyView, AppError> {
    match outcome {
        Ok(reply) => Ok(reply@),
        Err(e) => Err(e),
    }
}

/// One thing for the driver to do.
#[derive(Debug, PartialEq, Eq)]
#[allow(inconsistent_fields)]
pub enum Action {
    /// Tell whether the metadata store holds anything under `key`.
    /// Answered by `Present` or `Absent`; a store that cannot be read counts
    /// as `Absent`.
    ProbeRecord { key: String },
    /// Read the record of a bucket. Answered by `Bucket`, `Absent` or
    /// `Undecodable`.
    FetchBucket { name: String },
    /// Read the record of an object. Answered by `Object`, `Absent` or
    /// `Undecodable`.
    FetchObject { key: String },
    /// Put the record of a bucket under `name`, over whatever is there.
    /// Answered by `Completed` or `Failed`.
    StoreBucket { name: String, record: MetadataBucket },
    /// Put the record of an object under `key`, over whatever is there.
    /// Answered by `Completed` or `Failed`.
    StoreObject { key: String, record: Metadata },
    /// Remove whatever the metadata store holds under `key`; nothing there is
    /// no failure. Answered by `Completed` or `Failed`.
    RemoveRecord { key: String },
    /// Make sure the shard directory exists and write `body` to the blob
    /// file, over whatever is there. Answered by `Completed` or `Failed`.
    WriteBlob { at: BlobLocation, body: Vec<u8> },
    /// Read the blob file. Answered by `Blob`, by `BlobMissing` where there is
    /// no such file, or by `Failed`.
    ReadBlob { at: BlobLocation },
    /// Delete the blob file. Answered by `Completed` or `Failed`; a file that
    /// is not there is a failure.
    RemoveBlob { at: BlobLocation },
    /// Try to remove the shard directory, which works only if it is empty.
    /// Answered by `Completed` or `Failed`.
    RemoveShard { shard: String },
    /// Nothing more to do: hand the outcome to the caller.
    Finish(Result<Reply, AppError>),
}

/// What an `Action` holds.
#[allow(inconsistent_fields)]
pub enum ActionView {
    ProbeRecord { key: Seq<char> },
    FetchBucket { name: Seq<char> },
    FetchObject { key: Seq<char> },
    StoreBucket { name: Seq<char>, record: BucketRecord },
    StoreObject { key: Seq<char>, record: ObjectRecord },
    RemoveRecord { key: Seq<char> },
    WriteBlob { at: BlobAddress, body: Seq<u8> },
    ReadBlob { at: BlobAddress },
    RemoveBlob { at: BlobAddress },
    RemoveShard { shard: Seq<char> },
    Finish(Result<ReplyView, AppError>),
}

impl View for Action {
    type V = ActionView;

    open spec fn view(&self) -> ActionView {
        match *self {
            Action::ProbeRecord { key } => ActionView::ProbeRecord { key: key@ },
            Action::FetchBucket { name } => ActionView::FetchBucket { name: name@ },
            Action::FetchObject { key } => ActionView::FetchObject { key: key@ },
            Action::StoreBucket { name, record } => ActionView::StoreBucket {
                name: name@,
                record: record@,
            },
            Action::StoreObject { key, record } => ActionView::StoreObject {
                key: key@,
                record: record@,
            },
            Action::RemoveRecord { key } => ActionView::RemoveRecord { key: key@ },
            Action::WriteBlob { at, body } => ActionView::WriteBlob { at: at@, body: body@ },
            Action::ReadBlob { at } => ActionView::ReadBlob { at: at@ },
            Action::RemoveBlob { at } => ActionView::RemoveBlob { at: at@ },
            Action::RemoveShard { shard } => ActionView::RemoveShard { shard: shard@ },
            Action::Finish(outcome) => ActionView::Finish(outcome_view(outcome)),
        }
    }
}

/// How an action went.
#[derive(Debug, PartialEq, Eq)]
pub enum Event {
    /// The metadata store holds nothing under the key.
    Absent,
    /// The metadata store holds something under the key.
    Present,
    /// The record of a bucket, read back.
    Bucket(MetadataBucket),
    /// The record of an object, read back.
    Object(Metadata),
    /// Something is stored under the key, but it is no record of the kind
    /// asked for.
    Undecodable,
    /// The bytes of a blob.
    Blob(Vec<u8>),
    /// There is no blob file at the location.
    BlobMissing,
    /// The action was carried out.
    Completed,
    /// The action failed.
    Failed,
}

/// What an `Event` holds.
pub enum EventView {
    Absent,
    Present,
    Bucket(BucketRecord),
    Object(ObjectRecord),
    Undecodable,
    Blob(Seq<u8>),
    BlobMissing,
    Completed,
    Failed,
}

impl View for Event {
    type V = EventView;

    open spec fn view(&self) -> EventView {
        match *self {
            Event::Absent => EventView::Absent,
            Event::Present => EventView::Present,
            Event::Bucket(record) => EventView::Bucket(record@),
            Event::Object(record) => EventView::Object(record@),
            Event::Undecodable => EventView::Undecodable,
            Event::Blob(body) => EventView::Blob(body@),
            Event::BlobMissing => EventView::BlobMissing,
            Event::Completed => EventView::Completed,
            Event::Failed => EventView::Failed,
        }
    }
}

} // verus!
