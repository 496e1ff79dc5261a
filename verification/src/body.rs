//! The bodies of requests and responses.
use vstd::prelude::*;

verus! {

/// A streaming body: a lazy, finite sequence of byte chunks that is read once.
///
/// Factories and services only name the payload types they work with; how a
/// payload is read is up to the transport that drives the connection.
pub trait Payload {
}

} // verus!
