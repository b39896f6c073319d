//! The state behind cradle's protocol server: the songs that clients asked
//! for, and the audio server that plays them.
use std::sync::{Arc, Mutex};
use vstd::prelude::*;

use crate::protocol::{Enqueue, EnqueueResponse};

verus! {

/// The song that an audio server reports before anything has been played.
pub open spec fn nothing_playing() -> Seq<char> {
    seq!['N', 'o', 't', 'h', 'i', 'n', 'g', ' ', 'p', 'l', 'a', 'y', 'i', 'n', 'g']
}

/// Keeps track of the song being played.
pub struct AudioServer {
    current_song: String,
}

impl AudioServer {
    /// The song currently playing.
    pub closed spec fn current(self) -> Seq<char> {
        self.current_song@
    }

    /// An audio server that plays nothing yet.
    pub fn new() -> (a: AudioServer)
        ensures
            a.current() == nothing_playing(),
    {
        let current_song = String::from_str("Nothing playing");
        proof {
            reveal_strlit("Nothing playing");
        }
        assert(current_song@ =~= nothing_playing());
        AudioServer { current_song }
    }

    /// Start playing `song`, which replaces the current one.
    pub fn play(&mut self, song: String)
        ensures
            final(self).current() == song@,
    {
        self.current_song = song;
    }

    /// The song currently playing.
    pub fn current_song(&self) -> (s: &str)
        ensures
            s@ == self.current(),
    {
        self.current_song.as_str()
    }
}

/// The protocol server: a name, the songs enqueued so far, and the audio
/// server that it shares with the playback side.
pub struct ProtocolServer {
    name: String,
    songs: Vec<String>,
    audio_server: Arc<Mutex<AudioServer>>,
}

impl ProtocolServer {
    /// The server's name.
    pub closed spec fn server_name(self) -> String {
        self.name
    }

    /// The songs enqueued so far, oldest first.
    pub closed spec fn enqueued(self) -> Seq<String> {
        self.songs@
    }

    /// The audio server this protocol server shares.
    pub closed spec fn audio(self) -> Arc<Mutex<AudioServer>> {
        self.audio_server
    }

    /// A protocol server named `name`, with nothing enqueued yet, sharing
    /// `audio_server`.
    pub fn new(name: String, audio_server: Arc<Mutex<AudioServer>>) -> (s: ProtocolServer)
        ensures
            s.server_name() == name,
            s.enqueued() == Seq::<String>::empty(),
            s.audio() == audio_server,
    {
        ProtocolServer { name, songs: Vec::new(), audio_server }
    }

    /// Handle an enqueue request: the requested file path joins the end of the
    /// enqueued songs, and the request is answered with success.
    pub fn enqueue(&mut self, payload: Enqueue) -> (r: EnqueueResponse)
        ensures
            final(self).enqueued() == old(self).enqueued().push(payload.filepath),
            final(self).server_name() == old(self).server_name(),
            final(self).audio() == old(self).audio(),
            r.success,
    {
        self.songs.push(payload.filepath);
        EnqueueResponse { success: true }
    }

    /// The server's name.
    pub fn name(&self) -> (n: &str)
        ensures
            n@ == self.server_name()@,
    {
        self.name.as_str()
    }

    /// The songs enqueued so far, oldest first.
    pub fn songs(&self) -> (v: &Vec<String>)
        ensures
            v@ == self.enqueued(),
    {
        &self.songs
    }

    /// The shared audio server.
    pub fn audio_server(&self) -> (a: &Arc<Mutex<AudioServer>>)
        ensures
            *a == self.audio(),
    {
        &self.audio_server
    }
}

} // verus!
