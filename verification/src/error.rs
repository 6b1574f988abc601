//! The ways in which a request to the store can fail.

use vstd::prelude::*;
use vstd::string::*;

verus! {

/// What went wrong with a request.
#[derive(Clone, Copy, Debug, PartialEq, Eq, Structural)]
pub enum ErrorKind {
    /// The bucket named in the request has no record.
    BucketNotFound,
    /// A record already exists under the name of the bucket to create.
    BucketAlreadyExists,
    /// No record exists for the bucket and key.
    ObjectNotFound,
    /// A required attribute of the request is missing or malformed.
    Validation,
    /// The declared content hash is not the hash of the bytes sent.
    HashMismatch,
    /// A record exists, but the blob it points to is gone.
    Inconsistent,
    /// The storage behind the store failed.
    Io,
    /// A stored record cannot be read back.
    Encoding,
}

/// The four classes of outcome that a caller can branch on.
#[derive(Clone, Copy, Debug, PartialEq, Eq, Structural)]
pub enum ErrorClass {
    NotFound,
    Conflict,
    BadRequest,
    Internal,
}

/// The error a request ends with.
#[derive(Clone, Copy, Debug, PartialEq, Eq, Structural)]
pub struct AppError(pub ErrorKind);

/// The class each kind of error belongs to.
pub open spec fn class_of(kind: ErrorKind) -> ErrorClass {
    match kind {
        ErrorKind::BucketNotFound | ErrorKind::ObjectNotFound => ErrorClass::NotFound,
        ErrorKind::BucketAlreadyExists => ErrorClass::Conflict,
        ErrorKind::Validation | ErrorKind::HashMismatch => ErrorClass::BadRequest,
        ErrorKind::Inconsistent | ErrorKind::Io | ErrorKind::Encoding => ErrorClass::Internal,
    }
}

/// The HTTP status that reports a class of error.
pub open spec fn status_of(class: ErrorClass) -> u16 {
    match class {
        ErrorClass::NotFound => 404,
        ErrorClass::Conflict => 409,
        ErrorClass::BadRequest => 400,
        ErrorClass::Internal => 500,
    }
}

/// The sentence that describes a kind of error.
pub open spec fn message_of(kind: ErrorKind) -> Seq<char> {
    match kind {
        ErrorKind::BucketNotFound => "bucket does not exist"@,
        ErrorKind::BucketAlreadyExists => "bucket already exists"@,
        ErrorKind::ObjectNotFound => "object does not exist"@,
        ErrorKind::Validation => "a required attribute is missing or malformed"@,
        ErrorKind::HashMismatch => "hashes do not match"@,
        ErrorKind::Inconsistent => "object record exists but its blob is missing"@,
        ErrorKind::Io => "storage failure"@,
        ErrorKind::Encoding => "stored record cannot be decoded"@,
    }
}

impl From<ErrorKind> for AppError {
    fn from(kind: ErrorKind) -> (r: AppError) {
        AppError(kind)
    }
}

impl vstd::std_specs::convert::FromSpecImpl<ErrorKind> for AppError {
    open spec fn obeys_from_spec() -> bool {
        true
    }

    open spec fn from_spec(kind: ErrorKind) -> AppError {
        AppError(kind)
    }
}

impl AppError {
    pub fn kind(&self) -> (r: ErrorKind)
        ensures
            r == self.0,
    {
        self.0
    }

    pub fn class(&self) -> (r: ErrorClass)
        ensures
            r == class_of(self.0),
    {
        match self.0 {
            ErrorKind::BucketNotFound | ErrorKind::ObjectNotFound => ErrorClass::NotFound,
            ErrorKind::BucketAlreadyExists => ErrorClass::Conflict,
            ErrorKind::Validation | ErrorKind::HashMismatch => ErrorClass::BadRequest,
            ErrorKind::Inconsistent | ErrorKind::Io | ErrorKind::Encoding => ErrorClass::Internal,
        }
    }

    /// The HTTP status to answer with.
    pub fn status(&self) -> (r: u16)
        ensures
            r == status_of(class_of(self.0)),
    {
        match self.class() {
            ErrorClass::NotFound => 404,
            ErrorClass::Conflict => 409,
            ErrorClass::BadRequest => 400,
            ErrorClass::Internal => 500,
        }
    }

    /// A sentence for the person reading the answer.
    pub fn message(&self) -> (r: String)
        ensures
            r@ == message_of(self.0),
    {
        match self.0 {
            ErrorKind::BucketNotFound => String::from_str("bucket does not exist"),
            ErrorKind::BucketAlreadyExists => String::from_str("bucket already exists"),
            ErrorKind::ObjectNotFound => String::from_str("object does not exist"),
            ErrorKind::Validation => String::from_str(
                "a required attribute is missing or malformed",
            ),
            ErrorKind::HashMismatch => String::from_str("hashes do not match"),
            ErrorKind::Inconsistent => String::from_str(
                "object record exists but its blob is missing",
            ),
            ErrorKind::Io => String::from_str("storage failure"),
            ErrorKind::Encoding => String::from_str("stored record cannot be decoded"),
        }
    }
}

} // verus!
