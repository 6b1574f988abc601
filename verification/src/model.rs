//! A model of the storage that a driver serves operations from, and of a
//! driver that is faithful and never fails: what the metadata store and the
//! blob tree hold, what each action does to them, and what an operation comes
//! to when it is run to its end.
//!
//! The model is what the laws of the store are stated over. It takes blob
//! locations as they are written: two locations are the same file exactly
//! when shard and key are the same.

use crate::error::{AppError, ErrorKind};
use crate::exchange::{ActionView, EventView, ReplyView};
use crate::handlers::{begin_create, begin_delete, begin_get, begin_lookup, begin_put};
use crate::headers::HeaderView;
use crate::layout::BlobAddress;
use crate::operation::{advance, OperationView};
use crate::record::{BucketRecord, ObjectRecord};
use vstd::prelude::*;

verus! {

/// What the bytes under one key of the metadata store are.
pub enum Stored {
    /// The record of a bucket.
    Bucket(BucketRecord),
    /// The record of an object.
    Object(ObjectRecord),
    /// Bytes that are no record.
    Opaque,
}

/// What the storage holds.
pub struct World {
    /// The metadata store, by key.
    pub records: Map<Seq<char>, Stored>,
    /// The blob tree, by location.
    pub blobs: Map<BlobAddress, Seq<u8>>,
}

impl World {
    /// Whether a bucket exists: whether anything is stored under its name.
    pub open spec fn has_bucket(self, bucket: Seq<char>) -> bool {
        self.records.contains_key(bucket)
    }

    /// Whether any blob lies in `shard`.
    pub open spec fn shard_in_use(self, shard: Seq<char>) -> bool {
        exists|at: BlobAddress| #[trigger] self.blobs.contains_key(at) && at.shard == shard
    }

    /// What reading the key of a bucket gives. The record of an object begins
    /// as the record of a bucket does, and reads as one.
    pub open spec fn read_bucket(self, name: Seq<char>) -> EventView {
        if !self.records.contains_key(name) {
            EventView::Absent
        } else {
            match self.records[name] {
                Stored::Bucket(record) => EventView::Bucket(record),
                Stored::Object(record) => EventView::Bucket(
                    BucketRecord { created_at: record.created_at, tags: record.tags },
                ),
                Stored::Opaque => EventView::Undecodable,
            }
        }
    }

    /// What reading the key of an object gives.
    pub open spec fn read_object(self, key: Seq<char>) -> EventView {
        if !self.records.contains_key(key) {
            EventView::Absent
        } else {
            match self.records[key] {
                Stored::Object(record) => EventView::Object(record),
                _ => EventView::Undecodable,
            }
        }
    }

    /// The storage after `action`, and the event that reports it.
    pub open spec fn perform(self, action: ActionView) -> (World, EventView) {
        match action {
            ActionView::ProbeRecord { key } => (
                self,
                if self.records.contains_key(key) {
                    EventView::Present
                } else {
                    EventView::Absent
                },
            ),
            ActionView::FetchBucket { name } => (self, self.read_bucket(name)),
            ActionView::FetchObject { key } => (self, self.read_object(key)),
            ActionView::StoreBucket { name, record } => (
                World { records: self.records.insert(name, Stored::Bucket(record)), ..self },
                EventView::Completed,
            ),
            ActionView::StoreObject { key, record } => (
                World { records: self.records.insert(key, Stored::Object(record)), ..self },
                EventView::Completed,
            ),
            ActionView::RemoveRecord { key } => (
                World { records: self.records.remove(key), ..self },
                EventView::Completed,
            ),
            ActionView::WriteBlob { at, body } => (
                World { blobs: self.blobs.insert(at, body), ..self },
                EventView::Completed,
            ),
            ActionView::ReadBlob { at } => (
                self,
                if self.blobs.contains_key(at) {
                    EventView::Blob(self.blobs[at])
                } else {
                    EventView::BlobMissing
                },
            ),
            ActionView::RemoveBlob { at } => {
                if self.blobs.contains_key(at) {
                    (World { blobs: self.blobs.remove(at), ..self }, EventView::Completed)
                } else {
                    (self, EventView::Failed)
                }
            },
            ActionView::RemoveShard { shard } => (
                self,
                if self.shard_in_use(shard) {
                    EventView::Failed
                } else {
                    EventView::Completed
                },
            ),
            ActionView::Finish(_) => (self, EventView::Completed),
        }
    }
}

/// How many actions an operation may still ask for.
pub open spec fn steps_left(op: OperationView) -> nat {
    match op {
        OperationView::PutProbe { .. } => 3,
        OperationView::PutWrite { .. } => 2,
        OperationView::PutStore { .. } => 1,
        OperationView::GetFetch { .. } => 2,
        OperationView::GetRead { .. } => 1,
        OperationView::DeleteFetch { .. } => 4,
        OperationView::DeleteBlob { .. } => 3,
        OperationView::DeleteShard { .. } => 2,
        OperationView::DeleteRecord => 1,
        OperationView::CreateProbe { .. } => 2,
        OperationView::CreateStore { .. } => 1,
        OperationView::BucketFetch => 1,
        OperationView::Closed => 0,
    }
}

/// The storage after the operation in state `op`, which has asked for
/// `action`, has been served to its end, and the outcome of the operation.
/// Every step is taken at time `now`.
pub open spec fn run(world: World, op: OperationView, action: ActionView, now: Seq<char>) -> (
    World,
    Result<ReplyView, AppError>,
)
    decreases steps_left(op),
{
    match action {
        ActionView::Finish(outcome) => (world, outcome),
        _ => {
            if op is Closed {
                (world, Err(AppError(ErrorKind::Io)))
            } else {
                let (next_world, event) = world.perform(action);
                let (next_op, next_action) = advance(op, event, now);
                run(next_world, next_op, next_action, now)
            }
        },
    }
}

/// The storage as it is left when the driver stops after it has carried out
/// at most `steps` actions of the operation.
pub open spec fn interrupted(
    world: World,
    op: OperationView,
    action: ActionView,
    now: Seq<char>,
    steps: nat,
) -> World
    decreases steps,
{
    if steps == 0 {
        world
    } else {
        match action {
            ActionView::Finish(_) => world,
            _ => {
                let (next_world, event) = world.perform(action);
                let (next_op, next_action) = advance(op, event, now);
                interrupted(next_world, next_op, next_action, now, (steps - 1) as nat)
            },
        }
    }
}

/// An upload, served to its end.
pub open spec fn put(
    world: World,
    bucket: Seq<char>,
    key: Seq<char>,
    headers: Seq<HeaderView>,
    body: Seq<u8>,
    now: Seq<char>,
) -> (World, Result<ReplyView, AppError>) {
    let (op, action) = begin_put(bucket, key, headers, body);
    run(world, op, action, now)
}

/// A download, served to its end.
pub open spec fn get(world: World, bucket: Seq<char>, key: Seq<char>) -> (
    World,
    Result<ReplyView, AppError>,
) {
    let (op, action) = begin_get(bucket, key);
    run(world, op, action, Seq::empty())
}

/// A delete, served to its end.
pub open spec fn delete(world: World, bucket: Seq<char>, key: Seq<char>) -> (
    World,
    Result<ReplyView, AppError>,
) {
    let (op, action) = begin_delete(bucket, key);
    run(world, op, action, Seq::empty())
}

/// The creation of a bucket, served to its end.
pub open spec fn create_bucket(
    world: World,
    bucket: Seq<char>,
    headers: Seq<HeaderView>,
    now: Seq<char>,
) -> (World, Result<ReplyView, AppError>) {
    let (op, action) = begin_create(bucket, headers);
    run(world, op, action, now)
}

/// A bucket lookup, served to its end.
pub open spec fn bucket_info(world: World, bucket: Seq<char>) -> (
    World,
    Result<ReplyView, AppError>,
) {
    let (op, action) = begin_lookup(bucket);
    run(world, op, action, Seq::empty())
}

} // verus!
