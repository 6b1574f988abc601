use esfwee::error::{AppError, ErrorKind};
use esfwee::exchange::{Action, Event, Reply};
use esfwee::handlers::{delete_obj, get_bucket, get_obj, new_bucket, put_obj};
use esfwee::headers::Header;
use esfwee::layout::BlobLocation;
use esfwee::operation::{accept_upload, check_upload, Operation};
use esfwee::record::{Metadata, MetadataBucket};

const HELLO: &str = "2cf24dba5fb0a30e26e83b2ac5b9e29e1b161e5c1fa7425e73043362938b9824";

fn headers() -> Vec<Header> {
    vec![Header::new("x-hash", HELLO), Header::new("content-type", "text/plain")]
}

fn record() -> Metadata {
    Metadata {
        created_at: "2024-01-01T00:00:00+00:00".to_string(),
        tags: vec![],
        hash: HELLO.to_string(),
        content_type: "text/plain".to_string(),
    }
}

fn io_failure() -> Action {
    Action::Finish(Err(AppError(ErrorKind::Io)))
}

#[test]
fn put_starts_by_probing_the_bucket() {
    let (operation, action) = put_obj("b1", "k1", headers(), b"hello".to_vec());
    assert_eq!(action, Action::ProbeRecord { key: "b1".to_string() });
    assert_eq!(
        operation,
        Operation::PutProbe {
            bucket: "b1".to_string(),
            key: "k1".to_string(),
            headers: headers(),
            body: b"hello".to_vec(),
        }
    );
}

#[test]
fn put_steps_at_a_given_time() {
    let (operation, _) = put_obj("b1", "k1", headers(), b"hello".to_vec());
    let (operation, action) = operation.step_at(Event::Present, "2024-01-01T00:00:00+00:00");
    assert_eq!(
        action,
        Action::WriteBlob {
            at: BlobLocation { shard: "2c".to_string(), key: "k1".to_string() },
            body: b"hello".to_vec(),
        }
    );
    assert_eq!(
        operation,
        Operation::PutWrite { record_key: "b1/k1".to_string(), record: record() }
    );
    let (operation, action) = operation.step_at(Event::Completed, "later");
    assert_eq!(action, Action::StoreObject { key: "b1/k1".to_string(), record: record() });
    let (operation, action) = operation.step_at(Event::Completed, "later");
    assert_eq!(action, Action::Finish(Ok(Reply::Stored(record()))));
    assert!(operation.is_closed());
}

#[test]
fn put_stops_when_a_write_fails() {
    let (operation, _) = put_obj("b1", "k1", headers(), b"hello".to_vec());
    let (operation, _) = operation.step(Event::Present);
    let (operation, action) = operation.step(Event::Failed);
    assert_eq!(action, io_failure());
    assert!(operation.is_closed());

    let (operation, _) = put_obj("b1", "k1", headers(), b"hello".to_vec());
    let (operation, _) = operation.step(Event::Present);
    let (operation, _) = operation.step(Event::Completed);
    let (operation, action) = operation.step(Event::Failed);
    assert_eq!(action, io_failure());
    assert!(operation.is_closed());
}

#[test]
fn an_answer_to_another_question_ends_the_operation() {
    let (operation, _) = put_obj("b1", "k1", headers(), b"hello".to_vec());
    assert_eq!(operation.step(Event::Blob(vec![1])).1, io_failure());
    let (operation, _) = get_obj("b1", "k1");
    assert_eq!(operation.step(Event::Present).1, io_failure());
    let (operation, _) = delete_obj("b1", "k1");
    assert_eq!(operation.step(Event::Completed).1, io_failure());
    let (operation, _) = new_bucket("b1", vec![]);
    assert_eq!(operation.step(Event::Undecodable).1, io_failure());
    let (operation, _) = get_bucket("b1");
    assert_eq!(operation.step(Event::Object(record())).1, io_failure());
    assert_eq!(Operation::Closed.step(Event::Completed).1, io_failure());
}

#[test]
fn get_reads_the_blob_that_the_record_points_to() {
    let (operation, action) = get_obj("b1", "k1");
    assert_eq!(action, Action::FetchObject { key: "b1/k1".to_string() });
    let (operation, action) = operation.step(Event::Object(record()));
    assert_eq!(
        action,
        Action::ReadBlob { at: BlobLocation { shard: "2c".to_string(), key: "k1".to_string() } }
    );
    let (_, action) = operation.step(Event::Blob(b"hello".to_vec()));
    assert_eq!(
        action,
        Action::Finish(Ok(Reply::Object {
            body: b"hello".to_vec(),
            content_type: "text/plain".to_string(),
            hash: HELLO.to_string(),
        }))
    );
}

#[test]
fn get_tells_a_missing_blob_from_a_failed_read() {
    let (operation, _) = get_obj("b1", "k1");
    let (operation, _) = operation.step(Event::Object(record()));
    assert_eq!(
        operation.step(Event::BlobMissing).1,
        Action::Finish(Err(AppError(ErrorKind::Inconsistent)))
    );
    let (operation, _) = get_obj("b1", "k1");
    let (operation, _) = operation.step(Event::Object(record()));
    assert_eq!(operation.step(Event::Failed).1, io_failure());
}

#[test]
fn delete_goes_on_when_the_shard_stays() {
    let (operation, _) = delete_obj("b1", "k1");
    let (operation, action) = operation.step(Event::Object(record()));
    assert_eq!(
        action,
        Action::RemoveBlob { at: BlobLocation { shard: "2c".to_string(), key: "k1".to_string() } }
    );
    let (operation, action) = operation.step(Event::Completed);
    assert_eq!(action, Action::RemoveShard { shard: "2c".to_string() });
    let (operation, action) = operation.step(Event::Failed);
    assert_eq!(action, Action::RemoveRecord { key: "b1/k1".to_string() });
    let (_, action) = operation.step(Event::Completed);
    assert_eq!(action, Action::Finish(Ok(Reply::Deleted)));
}

#[test]
fn delete_keeps_the_record_when_the_blob_cannot_be_removed() {
    let (operation, _) = delete_obj("b1", "k1");
    let (operation, _) = operation.step(Event::Object(record()));
    let (operation, action) = operation.step(Event::Failed);
    assert_eq!(action, io_failure());
    assert!(operation.is_closed());
}

#[test]
fn new_bucket_at_a_given_time() {
    let (operation, action) = new_bucket("b1", vec![Header::new("x-kv-env", "prod")]);
    assert_eq!(action, Action::ProbeRecord { key: "b1".to_string() });
    let (operation, action) = operation.step_at(Event::Absent, "then");
    let expected =
        MetadataBucket { created_at: "then".to_string(), tags: vec!["prod".to_string()] };
    assert_eq!(
        action,
        Action::StoreBucket {
            name: "b1".to_string(),
            record: MetadataBucket { created_at: "then".to_string(), tags: vec!["prod".to_string()] },
        }
    );
    let (_, action) = operation.step_at(Event::Completed, "later");
    assert_eq!(action, Action::Finish(Ok(Reply::Bucket(expected))));
}

#[test]
fn get_bucket_hands_the_record_on() {
    let (operation, action) = get_bucket("b1");
    assert_eq!(action, Action::FetchBucket { name: "b1".to_string() });
    let found = MetadataBucket { created_at: "then".to_string(), tags: vec![] };
    let (_, action) = operation.step(Event::Bucket(found));
    assert_eq!(
        action,
        Action::Finish(Ok(Reply::Bucket(MetadataBucket {
            created_at: "then".to_string(),
            tags: vec![]
        })))
    );
}

#[test]
fn check_upload_on_a_given_digest() {
    assert_eq!(check_upload(&headers(), HELLO.to_string(), "2024-01-01T00:00:00+00:00"), Ok(record()));
    assert_eq!(
        check_upload(&headers(), "00".repeat(32), "now"),
        Err(AppError(ErrorKind::HashMismatch))
    );
    assert_eq!(
        check_upload(&vec![Header::new("x-hash", HELLO)], HELLO.to_string(), "now"),
        Err(AppError(ErrorKind::Validation))
    );
    assert_eq!(
        check_upload(&vec![Header::new("content-type", "a/b")], HELLO.to_string(), "now"),
        Err(AppError(ErrorKind::Validation))
    );
    assert_eq!(
        check_upload(
            &vec![Header::new("x-hash", "x"), Header::new("content-type", "a/b")],
            "x".to_string(),
            "now"
        ),
        Err(AppError(ErrorKind::Validation))
    );
}

#[test]
fn accept_upload_on_a_given_digest() {
    let declared = vec![Header::new("x-hash", "ABcd"), Header::new("content-type", "a/b")];
    let (operation, action) = accept_upload(
        "b".to_string(),
        "k".to_string(),
        declared,
        vec![1, 2, 3],
        "abcd".to_string(),
        "now",
    );
    assert_eq!(
        action,
        Action::WriteBlob {
            at: BlobLocation { shard: "ab".to_string(), key: "k".to_string() },
            body: vec![1, 2, 3],
        }
    );
    assert_eq!(
        operation,
        Operation::PutWrite {
            record_key: "b/k".to_string(),
            record: Metadata {
                created_at: "now".to_string(),
                tags: vec![],
                hash: "abcd".to_string(),
                content_type: "a/b".to_string(),
            },
        }
    );
}

#[test]
fn first_header_of_a_name_counts() {
    let declared = vec![
        Header::new("X-Hash", HELLO),
        Header::new("x-hash", "deadbeef"),
        Header::new("Content-Type", "text/plain"),
        Header::new("content-type", "text/html"),
    ];
    let checked = check_upload(&declared, HELLO.to_string(), "now").unwrap();
    assert_eq!(checked.content_type, "text/plain");
}
