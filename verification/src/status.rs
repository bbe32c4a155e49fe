//! Outcome of a failed remote call.

use crate::bridge::headers::{header_contents, new_header_map, no_headers};
use http::header::{HeaderMap, HeaderValue};
use vstd::prelude::*;

verus! {

/// Number of the gRPC code `Ok`.
pub const CODE_OK: i32 = 0;

/// Number of the gRPC code `Cancelled`.
pub const CODE_CANCELLED: i32 = 1;

/// Number of the gRPC code `Unknown`.
pub const CODE_UNKNOWN: i32 = 2;

/// Number of the gRPC code `ResourceExhausted`.
pub const CODE_RESOURCE_EXHAUSTED: i32 = 8;

/// A gRPC status.
#[derive(Debug)]
pub struct Status {
    pub code: i32,
    pub message: String,
    pub details: Vec<u8>,
    pub metadata: HeaderMap<HeaderValue>,
}

impl Status {
    /// The status carries a code and a message, and nothing else.
    pub open spec fn is_plain(self, code: i32, message: Seq<char>) -> bool {
        &&& self.code == code
        &&& self.message@ == message
        &&& self.details@.len() == 0
        &&& header_contents(self.metadata) == no_headers()
    }

    /// A status without details and metadata.
    pub fn new(code: i32, message: String) -> (res: Self)
        ensures
            res.is_plain(code, message@),
    {
        Status { code, message, details: Vec::new(), metadata: new_header_map() }
    }
}

/// A new status has the code and the message that it was made with, and neither details nor metadata.
pub proof fn law_new_statuses_are_plain(code: i32, message: String, res: Status)
    requires
        call_ensures(Status::new, (code, message), res),
    ensures
        res.code == code,
        res.message@ == message@,
        res.details@.len() == 0,
        forall|name: Seq<char>| !#[trigger] header_contents(res.metadata).contains_key(name),
{
}

} // verus!
