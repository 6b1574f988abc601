//! What holds of the store, for every state of the storage and every request,
//! when operations are served one after the other by a faithful driver.

use crate::digest::{content_hash_of, lemma_content_hash};
use crate::error::{AppError, ErrorKind};
use crate::exchange::{EventView, ReplyView};
use crate::headers::{content_type_header, find_header, hash_header, tags_of, HeaderView};
use crate::layout::{
    blob_address, has_shard, lemma_object_key_differs, object_key_of, plain, shard_of,
};
use crate::handlers::{begin_delete, begin_put};
use crate::model::{
    bucket_info, create_bucket, delete, get, interrupted, put, run, steps_left, Stored, World,
};
use crate::operation::{advance, lemma_shard_ignores_case, upload_record, OperationView};
use crate::record::{BucketRecord, ObjectRecord};
use crate::text::{is_hex_digit, same_ignoring_case};
use vstd::prelude::*;

verus! {

/// Whether `headers` declare the content type `content_type` and, as content
/// hash, the hash of `body`, in lower or upper case.
pub open spec fn declares(headers: Seq<HeaderView>, body: Seq<u8>, content_type: Seq<char>) -> bool {
    &&& find_header(headers, content_type_header()) == Some(content_type)
    &&& find_header(headers, hash_header()) matches Some(declared)
    &&& same_ignoring_case(declared, content_hash_of(body))
}

/// A text that is a content hash, ASCII case set aside, has a shard.
pub proof fn lemma_declared_hash_has_shard(declared: Seq<char>, body: Seq<u8>)
    requires
        same_ignoring_case(declared, content_hash_of(body)),
    ensures
        has_shard(declared),
        has_shard(content_hash_of(body)),
{
    lemma_content_hash(body);
    assert(is_hex_digit(content_hash_of(body)[0]));
    assert(is_hex_digit(content_hash_of(body)[1]));
    lemma_shard_ignores_case(content_hash_of(body), declared);
}

/// The record that a well-declared upload stores.
pub open spec fn record_of(
    headers: Seq<HeaderView>,
    body: Seq<u8>,
    content_type: Seq<char>,
    now: Seq<char>,
) -> ObjectRecord {
    ObjectRecord {
        created_at: now,
        tags: tags_of(headers),
        hash: content_hash_of(body),
        content_type,
    }
}

/// A well-declared upload into a bucket that exists succeeds. It writes the
/// blob at the shard of the content hash, stores the record under the
/// object's key, and changes nothing else.
pub proof fn law_put_effect(
    world: World,
    bucket: Seq<char>,
    key: Seq<char>,
    headers: Seq<HeaderView>,
    body: Seq<u8>,
    content_type: Seq<char>,
    now: Seq<char>,
)
    requires
        world.has_bucket(bucket),
        declares(headers, body, content_type),
    ensures
        has_shard(content_hash_of(body)),
        put(world, bucket, key, headers, body, now) == (
            World {
                records: world.records.insert(
                    object_key_of(bucket, key),
                    Stored::Object(record_of(headers, body, content_type, now)),
                ),
                blobs: world.blobs.insert(blob_address(content_hash_of(body), key), body),
            },
            Ok::<ReplyView, AppError>(
                ReplyView::Stored(record_of(headers, body, content_type, now)),
            ),
        ),
{
    reveal_with_fuel(run, 4);
    lemma_declared_hash_has_shard(find_header(headers, hash_header())->0, body);
}

/// After a well-declared upload into a bucket that exists, a download of the
/// same object gives back the bytes that were sent, the content type that was
/// declared, and the content hash of the bytes.
pub proof fn law_round_trip(
    world: World,
    bucket: Seq<char>,
    key: Seq<char>,
    headers: Seq<HeaderView>,
    body: Seq<u8>,
    content_type: Seq<char>,
    now: Seq<char>,
)
    requires
        world.has_bucket(bucket),
        declares(headers, body, content_type),
    ensures
        put(world, bucket, key, headers, body, now).1 is Ok,
        get(put(world, bucket, key, headers, body, now).0, bucket, key).1 == Ok::<
            ReplyView,
            AppError,
        >(ReplyView::Object { body, content_type, hash: content_hash_of(body) }),
{
    law_put_effect(world, bucket, key, headers, body, content_type, now);
    reveal_with_fuel(run, 3);
}

/// An upload into a bucket that exists, which declares its content type and a
/// hash that has a shard but is not the hash of the bytes, fails with
/// `HashMismatch` and leaves the storage as it was.
pub proof fn law_hash_enforced(
    world: World,
    bucket: Seq<char>,
    key: Seq<char>,
    headers: Seq<HeaderView>,
    body: Seq<u8>,
    now: Seq<char>,
)
    requires
        world.has_bucket(bucket),
        find_header(headers, content_type_header()) is Some,
        find_header(headers, hash_header()) matches Some(declared) && has_shard(declared)
            && !same_ignoring_case(declared, content_hash_of(body)),
    ensures
        put(world, bucket, key, headers, body, now) == (
            world,
            Err::<ReplyView, AppError>(AppError(ErrorKind::HashMismatch)),
        ),
{
    reveal_with_fuel(run, 2);
}

/// An upload that does not declare its content hash or its content type, or
/// declares a hash without a shard, fails with `Validation` and leaves the
/// storage as it was.
pub proof fn law_upload_validated(
    world: World,
    bucket: Seq<char>,
    key: Seq<char>,
    headers: Seq<HeaderView>,
    body: Seq<u8>,
    now: Seq<char>,
)
    requires
        world.has_bucket(bucket),
        find_header(headers, content_type_header()) is None || !(find_header(
            headers,
            hash_header(),
        ) matches Some(declared) && has_shard(declared)),
    ensures
        put(world, bucket, key, headers, body, now) == (
            world,
            Err::<ReplyView, AppError>(AppError(ErrorKind::Validation)),
        ),
{
    reveal_with_fuel(run, 2);
}

/// An upload into a bucket that does not exist fails with `BucketNotFound`
/// and leaves the storage as it was, whatever it declares.
pub proof fn law_bucket_required(
    world: World,
    bucket: Seq<char>,
    key: Seq<char>,
    headers: Seq<HeaderView>,
    body: Seq<u8>,
    now: Seq<char>,
)
    requires
        !world.has_bucket(bucket),
    ensures
        put(world, bucket, key, headers, body, now) == (
            world,
            Err::<ReplyView, AppError>(AppError(ErrorKind::BucketNotFound)),
        ),
{
    reveal_with_fuel(run, 2);
}

/// Creating a bucket whose name is free stores its record, with the tags of
/// the request and the time of the step, and changes nothing else.
pub proof fn law_create_effect(
    world: World,
    bucket: Seq<char>,
    headers: Seq<HeaderView>,
    now: Seq<char>,
)
    requires
        !world.has_bucket(bucket),
    ensures
        create_bucket(world, bucket, headers, now) == (
            World {
                records: world.records.insert(
                    bucket,
                    Stored::Bucket(BucketRecord { created_at: now, tags: tags_of(headers) }),
                ),
                blobs: world.blobs,
            },
            Ok::<ReplyView, AppError>(
                ReplyView::Bucket(BucketRecord { created_at: now, tags: tags_of(headers) }),
            ),
        ),
        bucket_info(create_bucket(world, bucket, headers, now).0, bucket).1 == Ok::<
            ReplyView,
            AppError,
        >(ReplyView::Bucket(BucketRecord { created_at: now, tags: tags_of(headers) })),
{
    reveal_with_fuel(run, 3);
}

/// After a bucket has been created, creating it again fails with
/// `BucketAlreadyExists` and leaves the storage as it was, so that a lookup
/// still gives the record of the first creation.
pub proof fn law_create_once(
    world: World,
    bucket: Seq<char>,
    first: Seq<HeaderView>,
    first_time: Seq<char>,
    second: Seq<HeaderView>,
    second_time: Seq<char>,
)
    ensures
        ({
            let created = create_bucket(world, bucket, first, first_time).0;
            &&& created.has_bucket(bucket)
            &&& create_bucket(created, bucket, second, second_time) == (
                created,
                Err::<ReplyView, AppError>(AppError(ErrorKind::BucketAlreadyExists)),
            )
            &&& create_bucket(world, bucket, first, first_time).1 is Ok ==> bucket_info(
                create_bucket(created, bucket, second, second_time).0,
                bucket,
            ).1 == Ok::<ReplyView, AppError>(
                ReplyView::Bucket(
                    BucketRecord { created_at: first_time, tags: tags_of(first) },
                ),
            )
        }),
{
    reveal_with_fuel(run, 3);
}

/// After a delete has succeeded, the object has no record, and a download of
/// it fails with `ObjectNotFound`.
pub proof fn law_delete_final(world: World, bucket: Seq<char>, key: Seq<char>)
    requires
        delete(world, bucket, key).1 is Ok,
    ensures
        !delete(world, bucket, key).0.records.contains_key(object_key_of(bucket, key)),
        get(delete(world, bucket, key).0, bucket, key).1 == Err::<ReplyView, AppError>(
            AppError(ErrorKind::ObjectNotFound),
        ),
{
    reveal_with_fuel(run, 5);
}

/// Whether the object has a record whose hash has a shard, and a blob lies
/// where the record points.
pub open spec fn deletable(world: World, bucket: Seq<char>, key: Seq<char>) -> bool {
    &&& world.records.contains_key(object_key_of(bucket, key))
    &&& world.records[object_key_of(bucket, key)] matches Stored::Object(record)
    &&& has_shard(record.hash)
    &&& world.blobs.contains_key(blob_address(record.hash, key))
}

/// A delete succeeds exactly when the object has a record whose hash has a
/// shard and the blob lies where the record points. It then removes that blob
/// and the record, and nothing else. Where the object has no record, it fails
/// with `ObjectNotFound` and leaves the storage as it was.
pub proof fn law_delete_effect(world: World, bucket: Seq<char>, key: Seq<char>)
    ensures
        delete(world, bucket, key).1 is Ok <==> deletable(world, bucket, key),
        deletable(world, bucket, key) ==> delete(world, bucket, key) == (
            World {
                records: world.records.remove(object_key_of(bucket, key)),
                blobs: world.blobs.remove(
                    blob_address(world.records[object_key_of(bucket, key)]->Object_0.hash, key),
                ),
            },
            Ok::<ReplyView, AppError>(ReplyView::Deleted),
        ),
        !world.records.contains_key(object_key_of(bucket, key)) ==> delete(world, bucket, key)
            == (world, Err::<ReplyView, AppError>(AppError(ErrorKind::ObjectNotFound))),
{
    reveal_with_fuel(run, 5);
}

/// After two well-declared uploads of the same object, a download gives the
/// bytes, content type and hash of the second, and a blob still lies where
/// the first upload wrote its own.
pub proof fn law_overwrite_orphans(
    world: World,
    bucket: Seq<char>,
    key: Seq<char>,
    first: Seq<HeaderView>,
    first_body: Seq<u8>,
    first_type: Seq<char>,
    first_time: Seq<char>,
    second: Seq<HeaderView>,
    second_body: Seq<u8>,
    second_type: Seq<char>,
    second_time: Seq<char>,
)
    requires
        world.has_bucket(bucket),
        declares(first, first_body, first_type),
        declares(second, second_body, second_type),
    ensures
        ({
            let once = put(world, bucket, key, first, first_body, first_time).0;
            let twice = put(once, bucket, key, second, second_body, second_time).0;
            let old_place = blob_address(content_hash_of(first_body), key);
            let new_place = blob_address(content_hash_of(second_body), key);
            &&& get(twice, bucket, key).1 == Ok::<ReplyView, AppError>(
                ReplyView::Object {
                    body: second_body,
                    content_type: second_type,
                    hash: content_hash_of(second_body),
                },
            )
            &&& twice.blobs.contains_key(old_place)
            &&& old_place != new_place ==> twice.blobs[old_place] == first_body
        }),
{
    let once = put(world, bucket, key, first, first_body, first_time).0;
    law_put_effect(world, bucket, key, first, first_body, first_type, first_time);
    lemma_object_key_differs(bucket, key);
    assert(once.has_bucket(bucket));
    law_put_effect(once, bucket, key, second, second_body, second_type, second_time);
    law_round_trip(once, bucket, key, second, second_body, second_type, second_time);
}

/// A record without its blob is an inconsistency: a download of an object
/// whose record is there, while no blob lies where it points, fails with
/// `Inconsistent`, never with `ObjectNotFound`.
pub proof fn law_missing_blob_is_inconsistent(
    world: World,
    bucket: Seq<char>,
    key: Seq<char>,
    record: ObjectRecord,
)
    requires
        world.records.contains_key(object_key_of(bucket, key)),
        world.records[object_key_of(bucket, key)] == Stored::Object(record),
        has_shard(record.hash),
        !world.blobs.contains_key(blob_address(record.hash, key)),
    ensures
        get(world, bucket, key) == (
            world,
            Err::<ReplyView, AppError>(AppError(ErrorKind::Inconsistent)),
        ),
{
    reveal_with_fuel(run, 3);
}

/// A download leaves the storage as it was.
pub proof fn law_get_reads_only(world: World, bucket: Seq<char>, key: Seq<char>)
    ensures
        get(world, bucket, key).0 == world,
        bucket_info(world, bucket).0 == world,
{
    reveal_with_fuel(run, 3);
}

/// Objects of buckets with plain names have record keys of their own: the
/// record key tells bucket and key.
pub proof fn law_record_key_tells_object(
    bucket: Seq<char>,
    key: Seq<char>,
    other_bucket: Seq<char>,
    other_key: Seq<char>,
)
    requires
        plain(bucket),
        plain(other_bucket),
        object_key_of(bucket, key) == object_key_of(other_bucket, other_key),
    ensures
        bucket == other_bucket,
        key == other_key,
{
    reveal_strlit("/");
    let joined = object_key_of(bucket, key);
    let other = object_key_of(other_bucket, other_key);
    assert(joined.len() == bucket.len() + 1 + key.len());
    assert(other.len() == other_bucket.len() + 1 + other_key.len());
    if bucket.len() < other_bucket.len() {
        assert(joined[bucket.len() as int] == '/');
        assert(other[bucket.len() as int] == other_bucket[bucket.len() as int]);
    } else if other_bucket.len() < bucket.len() {
        assert(other[other_bucket.len() as int] == '/');
        assert(joined[other_bucket.len() as int] == bucket[other_bucket.len() as int]);
    }
    assert(bucket =~= joined.subrange(0, bucket.len() as int));
    assert(other_bucket =~= other.subrange(0, bucket.len() as int));
    assert(key =~= joined.subrange(bucket.len() as int + 1, joined.len() as int));
    assert(other_key =~= other.subrange(bucket.len() as int + 1, joined.len() as int));
}

/// Buckets with plain names come from creation alone: no other operation
/// makes one exist, and the creation of a bucket makes no other exist.
pub proof fn law_only_creation_makes_buckets(
    world: World,
    name: Seq<char>,
    bucket: Seq<char>,
    key: Seq<char>,
    headers: Seq<HeaderView>,
    body: Seq<u8>,
    now: Seq<char>,
)
    requires
        plain(name),
        !world.has_bucket(name),
    ensures
        !put(world, bucket, key, headers, body, now).0.has_bucket(name),
        !get(world, bucket, key).0.has_bucket(name),
        !delete(world, bucket, key).0.has_bucket(name),
        !bucket_info(world, bucket).0.has_bucket(name),
        bucket != name ==> !create_bucket(world, bucket, headers, now).0.has_bucket(name),
{
    reveal_with_fuel(run, 5);
    lemma_object_key_differs(bucket, key);
}

/// Whether object `key` of `bucket` is whole: it has a record, and the blob
/// that the record points to is there and hashes to the hash in the record.
pub open spec fn intact(world: World, bucket: Seq<char>, key: Seq<char>) -> bool {
    &&& world.records.contains_key(object_key_of(bucket, key))
    &&& world.records[object_key_of(bucket, key)] matches Stored::Object(record)
    &&& has_shard(record.hash)
    &&& world.blobs.contains_key(blob_address(record.hash, key))
    &&& content_hash_of(world.blobs[blob_address(record.hash, key)]) == record.hash
}

/// The download of an object that is whole gives bytes whose content hash is
/// the hash that comes with them.
pub proof fn law_intact_download(world: World, bucket: Seq<char>, key: Seq<char>)
    requires
        intact(world, bucket, key),
    ensures
        get(world, bucket, key).1 matches Ok(ReplyView::Object { body, hash, .. })
            && content_hash_of(body) == hash,
{
    reveal_with_fuel(run, 3);
}

/// An upload that succeeds leaves its object whole.
pub proof fn law_upload_is_intact(
    world: World,
    bucket: Seq<char>,
    key: Seq<char>,
    headers: Seq<HeaderView>,
    body: Seq<u8>,
    now: Seq<char>,
)
    requires
        put(world, bucket, key, headers, body, now).1 is Ok,
    ensures
        intact(put(world, bucket, key, headers, body, now).0, bucket, key),
{
    reveal_with_fuel(run, 4);
}

/// An upload leaves another object whole, as long as the two objects differ
/// in their record key and the upload does not write where the other
/// object's blob lies. Blobs are filed by shard and key alone, so objects of
/// the same key in two buckets share a blob file when their hashes share a
/// shard: that is the one way in which an upload can break another object.
pub proof fn law_upload_keeps_others_intact(
    world: World,
    bucket: Seq<char>,
    key: Seq<char>,
    headers: Seq<HeaderView>,
    body: Seq<u8>,
    now: Seq<char>,
    other_bucket: Seq<char>,
    other_key: Seq<char>,
)
    requires
        intact(world, other_bucket, other_key),
        object_key_of(bucket, key) != object_key_of(other_bucket, other_key),
        key != other_key || shard_of(content_hash_of(body)) != shard_of(
            world.records[object_key_of(other_bucket, other_key)]->Object_0.hash,
        ),
    ensures
        intact(put(world, bucket, key, headers, body, now).0, other_bucket, other_key),
        get(put(world, bucket, key, headers, body, now).0, other_bucket, other_key).1 == get(
            world,
            other_bucket,
            other_key,
        ).1,
{
    reveal_with_fuel(run, 4);
}

/// A delete leaves another object whole, as long as the two objects differ in
/// their record key and do not share a blob file.
pub proof fn law_delete_keeps_others_intact(
    world: World,
    bucket: Seq<char>,
    key: Seq<char>,
    other_bucket: Seq<char>,
    other_key: Seq<char>,
)
    requires
        intact(world, other_bucket, other_key),
        object_key_of(bucket, key) != object_key_of(other_bucket, other_key),
        key != other_key || !world.records.contains_key(object_key_of(bucket, key)) || !(
        world.records[object_key_of(bucket, key)] matches Stored::Object(record) && shard_of(
            record.hash,
        ) == shard_of(world.records[object_key_of(other_bucket, other_key)]->Object_0.hash)),
    ensures
        intact(delete(world, bucket, key).0, other_bucket, other_key),
        get(delete(world, bucket, key).0, other_bucket, other_key).1 == get(
            world,
            other_bucket,
            other_key,
        ).1,
{
    reveal_with_fuel(run, 5);
}

/// An object exists only in a bucket that exists: an upload that succeeds
/// found its bucket, and leaves it in place.
pub proof fn law_object_needs_bucket(
    world: World,
    bucket: Seq<char>,
    key: Seq<char>,
    headers: Seq<HeaderView>,
    body: Seq<u8>,
    now: Seq<char>,
)
    requires
        put(world, bucket, key, headers, body, now).1 is Ok,
    ensures
        world.has_bucket(bucket),
        put(world, bucket, key, headers, body, now).0.has_bucket(bucket),
        put(world, bucket, key, headers, body, now).0.records.contains_key(
            object_key_of(bucket, key),
        ),
{
    reveal_with_fuel(run, 4);
}

/// An upload that is cut short leaves no record without its blob: as long as
/// the upload of a new object has not stored its record, the records are
/// those from before and a download fails with `ObjectNotFound`; once it has,
/// a download gives the bytes that were sent.
pub proof fn law_interrupted_upload(
    world: World,
    bucket: Seq<char>,
    key: Seq<char>,
    headers: Seq<HeaderView>,
    body: Seq<u8>,
    content_type: Seq<char>,
    now: Seq<char>,
    steps: nat,
)
    requires
        world.has_bucket(bucket),
        declares(headers, body, content_type),
        !world.records.contains_key(object_key_of(bucket, key)),
    ensures
        ({
            let (op, action) = begin_put(bucket, key, headers, body);
            let left = interrupted(world, op, action, now, steps);
            &&& steps < 3 ==> left.records == world.records && get(left, bucket, key).1 == Err::<
                ReplyView,
                AppError,
            >(AppError(ErrorKind::ObjectNotFound))
            &&& steps >= 2 ==> left.blobs.contains_key(blob_address(content_hash_of(body), key))
            &&& steps >= 3 ==> left == put(world, bucket, key, headers, body, now).0
        }),
{
    reveal_with_fuel(run, 4);
    reveal_with_fuel(interrupted, 5);
    lemma_declared_hash_has_shard(find_header(headers, hash_header())->0, body);
}

/// A delete that is cut short after the blob is gone and before the record
/// is removed leaves a record without its blob: a download then fails with
/// `Inconsistent`. Before that point the object is as it was, after it the
/// object is gone.
pub proof fn law_interrupted_delete(world: World, bucket: Seq<char>, key: Seq<char>, steps: nat)
    requires
        deletable(world, bucket, key),
    ensures
        ({
            let (op, action) = begin_delete(bucket, key);
            let left = interrupted(world, op, action, Seq::empty(), steps);
            &&& steps <= 1 ==> left == world
            &&& steps == 2 || steps == 3 ==> get(left, bucket, key).1 == Err::<
                ReplyView,
                AppError,
            >(AppError(ErrorKind::Inconsistent))
            &&& steps >= 4 ==> left == delete(world, bucket, key).0 && get(left, bucket, key).1
                == Err::<ReplyView, AppError>(AppError(ErrorKind::ObjectNotFound))
        }),
{
    reveal_with_fuel(run, 5);
    reveal_with_fuel(interrupted, 6);
}

/// Every operation ends: each step brings it nearer to its end, at most four
/// actions are asked for before `Finish`, and a closed operation asks for
/// nothing more.
pub proof fn law_operations_end(op: OperationView, event: EventView, now: Seq<char>)
    ensures
        steps_left(op) <= 4,
        op is Closed ==> advance(op, event, now).1 is Finish,
        !(op is Closed) ==> steps_left(advance(op, event, now).0) < steps_left(op),
        advance(op, event, now).0 is Closed <==> advance(op, event, now).1 is Finish,
{
}

/// The order of writes. A blob is written only by an upload whose bucket
/// exists and whose declared hash is the hash of its bytes; a record of an
/// object is stored only once its blob has been written; and a record is
/// removed only after the blob was deleted and the shard directory tried.
pub proof fn law_write_order(op: OperationView, event: EventView, now: Seq<char>)
    ensures
        advance(op, event, now).1 is WriteBlob ==> (op matches OperationView::PutProbe {
            headers,
            body,
            ..
        } && event is Present && upload_record(headers, content_hash_of(body), now) is Ok),
        advance(op, event, now).1 is StoreObject ==> op is PutWrite && event is Completed,
        advance(op, event, now).1 is RemoveBlob ==> op is DeleteFetch && event is Object,
        advance(op, event, now).1 is RemoveShard ==> op is DeleteBlob && event is Completed,
        advance(op, event, now).1 is RemoveRecord ==> op is DeleteShard,
        advance(op, event, now).1 is StoreBucket ==> op is CreateProbe && event is Absent,
{
}

} // verus!
