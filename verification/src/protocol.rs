//! The messages that clients and the server exchange.
use vstd::prelude::*;

verus! {

/// A request to add the track at `filepath` to the queue.
#[derive(Debug)]
pub struct Enqueue {
    pub filepath: String,
}

/// The answer to an [`Enqueue`] request.
#[derive(Debug)]
pub struct EnqueueResponse {
    pub success: bool,
}

} // verus!
