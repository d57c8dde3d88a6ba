//! A typed client library for a hosted DNS-management HTTP API: typed requests
//! that render to form-encoded calls, typed replies, and one error taxonomy.
//!
//! The transport itself (the HTTP client) lives outside this crate; the library
//! says what to send and how to settle what came back.

pub mod text;
pub mod addr;
pub mod codec;
pub mod error;
pub mod dto;
pub mod skiperr;
pub mod api;

pub use codec::{Content, DnsType};
pub use dto::{AddReply, DeleteReply, EditReply, ListReply};
pub use dto::{AddRequest, DeleteRequest, EditRequest, ListRequest};
pub use error::{Error, ErrorCode};
