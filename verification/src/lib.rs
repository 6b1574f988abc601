//! A content-addressed blob store organised into buckets, written as a
//! verified decision core: every operation is a small state machine that
//! tells its driver which storage action to perform next and decides, from
//! the outcome, how to go on.

pub mod catalog;
pub mod clock;
pub mod decimal;
pub mod digest;
pub mod error;
pub mod exchange;
pub mod handlers;
pub mod headers;
pub mod laws;
pub mod layout;
pub mod model;
pub mod operation;
pub mod record;
pub mod source;
pub mod text;
