//! The state of the standalone enqueue server: a name and the songs that
//! clients asked for.
use vstd::prelude::*;

use crate::protocol::{Enqueue, EnqueueResponse};

verus! {

/// The HTTP status with which an accepted request is answered (200 OK).
pub const STATUS_OK: u16 = 200;

/// A server's name and the songs enqueued on it.
pub struct ServerState {
    name: String,
    songs: Vec<String>,
}

impl ServerState {
    /// The server's name.
    pub closed spec fn server_name(self) -> String {
        self.name
    }

    /// The songs enqueued so far, oldest first.
    pub closed spec fn enqueued(self) -> Seq<String> {
        self.songs@
    }

    /// A server named `name` with nothing enqueued.
    pub fn new(name: String) -> (s: ServerState)
        ensures
            s.server_name() == name,
            s.enqueued() == Seq::<String>::empty(),
    {
        ServerState { name, songs: Vec::new() }
    }

    /// Handle an enqueue request: the requested file path joins the end of the
    /// enqueued songs, and the answer is status 200 with a success response.
    pub fn enqueue(&mut self, payload: Enqueue) -> (r: (u16, EnqueueResponse))
        ensures
            final(self).enqueued() == old(self).enqueued().push(payload.filepath),
            final(self).server_name() == old(self).server_name(),
            r.0 == STATUS_OK,
            r.1.success,
    {
        self.songs.push(payload.filepath);
        (STATUS_OK, EnqueueResponse { success: true })
    }

    /// The server's name.
    pub fn name(&self) -> (n: &str)
        ensures
            n@ == self.server_name()@,
    {
        self.name.as_str()
    }

    /// The songs enqueued so far, oldest first.
    pub fn songs(&self) -> (v: &Vec<String>)
        ensures
            v@ == self.enqueued(),
    {
        &self.songs
    }
}

} // verus!
