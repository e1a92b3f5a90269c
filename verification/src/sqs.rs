//! The boundary to the remote queue service.
//!
//! The service itself — listing queues, sending, receiving and deleting
//! messages — is a network collaborator that the process around the library
//! drives; the library receives its answers as the plain event types defined
//! here. The one piece of outside computation the library calls directly is
//! deriving a queue's short name from its remote address.

use vstd::prelude::*;
use crate::errors::FsError;

verus! {

/// The path segments of a remote queue address: what parsing the address as
/// a URL and splitting its path yields, or nothing when the address does not
/// parse or the URL cannot carry a path.
pub uninterp spec fn path_segments_of(url: Seq<char>) -> Option<Seq<Seq<char>>>;

/// Relies on `url::Url::parse` and `url::Url::path_segments`: both are pure
/// parsing, so the segments depend on the address text alone. The two calls
/// must stand together because the parsed URL value is opaque here.
#[verifier::external_body]
fn parse_path_segments(queue_url: &str) -> (r: Option<Vec<String>>)
    ensures
        r is Some <==> path_segments_of(queue_url@) is Some,
        r matches Some(v) ==> path_segments_of(queue_url@) == Some(v.deep_view()),
{
    match url::Url::parse(queue_url) {
        Ok(parsed) => parsed.path_segments().map(
            |segments| segments.map(|segment| segment.to_string()).collect(),
        ),
        Err(_) => None,
    }
}

/// The short name of a queue: the last path segment of its remote address,
/// or nothing when the address has no usable path.
pub open spec fn short_name_of(url: Seq<char>) -> Option<Seq<char>> {
    match path_segments_of(url) {
        Some(segments) => if segments.len() > 0 {
            Some(segments.last())
        } else {
            None
        },
        None => None,
    }
}

/// Derives the short name of a queue — the last path segment of its remote
/// address — or reports a service error for an address without one.
pub fn get_queue_name(queue_url: &str) -> (r: Result<String, FsError>)
    ensures
        r is Ok <==> short_name_of(queue_url@) is Some,
        r matches Ok(n) ==> short_name_of(queue_url@) == Some(n@),
        r matches Err(e) ==> e == FsError::ServiceError,
{
    match parse_path_segments(queue_url) {
        Some(segments) => {
            if segments.len() > 0 {
                let last = &segments[segments.len() - 1];
                proof {
                    assert(segments.deep_view()[segments@.len() - 1] == last@);
                }
                Ok(last.clone())
            } else {
                Err(FsError::ServiceError)
            }
        },
        None => Err(FsError::ServiceError),
    }
}

/// What a listing call to the queue service came back with: the remote
/// addresses of the available queues, or nothing when the call failed.
pub enum ListingOutcome {
    Listed(Vec<String>),
    Failed,
}

/// One message received from a queue: its text and the opaque receipt token
/// that a later delete call must present.
#[derive(Clone)]
pub struct ReceivedMessage {
    pub body: String,
    pub receipt_handle: String,
}

/// What a receive call to the queue service came back with.
pub enum ReceiveOutcome {
    /// One message was returned.
    Message(ReceivedMessage),
    /// The queue had no message pending.
    NoMessage,
    /// The call itself failed.
    Failed,
}

} // verus!
