//! Track queueing and querying between a front-end interface and a back-end
//! audio provider.
//!
//! A [`TrackManager`] is the "middle-end" that a front end (a server, or a
//! direct command-line interface) adds tracks to, and that a back end reads
//! tracks from when it plays a playlist.
use std::collections::VecDeque;
use vstd::prelude::*;

use crate::track::Track;

verus! {

/// Whether music is playing, stopped, or paused during playback.
#[derive(Debug)]
pub enum PlaybackState {
    /// Music is stopped, no track is loaded.
    Stopped,
    /// Music is playing, a track is loaded.
    Playing(Track),
    /// Music is stopped, but a track is loaded.
    Paused(Track),
}

impl PlaybackState {
    /// The track loaded in this state, as a sequence of zero or one tracks.
    pub open spec fn loaded(self) -> Seq<Track> {
        match self {
            PlaybackState::Stopped => Seq::empty(),
            PlaybackState::Playing(t) => seq![t],
            PlaybackState::Paused(t) => seq![t],
        }
    }
}

/// The state and upcoming queue that enqueueing one track onto `state` and
/// `queue` leads to: onto a stopped manager with nothing queued the track is
/// loaded, paused; in every other case it joins the back of the queue.
pub open spec fn after_enqueue(state: PlaybackState, queue: Seq<Track>, track: Track) -> (
    PlaybackState,
    Seq<Track>,
) {
    if state is Stopped && queue.len() == 0 {
        (PlaybackState::Paused(track), queue)
    } else {
        (state, queue.push(track))
    }
}

/// The state and queue that enqueueing `tracks`, first to last, onto `state`
/// and `queue` leads to.
pub open spec fn after_enqueue_all(state: PlaybackState, queue: Seq<Track>, tracks: Seq<Track>) -> (
    PlaybackState,
    Seq<Track>,
)
    decreases tracks.len(),
{
    if tracks.len() == 0 {
        (state, queue)
    } else {
        let (s, q) = after_enqueue_all(state, queue, tracks.drop_last());
        after_enqueue(s, q, tracks.last())
    }
}

/// The middle-end between front ends that add tracks and the back end that
/// plays them.
pub struct TrackManager {
    /// The current state of playback, along with the (possibly) current track.
    pub playbackstate: PlaybackState,
    /// Upcoming tracks.
    pub queue: VecDeque<Track>,
    /// Previously played tracks.
    pub played: Vec<Track>,
}

impl TrackManager {
    /// The loaded track, if any, followed by the queued tracks in order.
    pub open spec fn lineup(self) -> Seq<Track> {
        self.playbackstate.loaded() + self.queue@
    }

    /// What every manager reached through this interface satisfies: a stopped
    /// manager has nothing queued.
    pub open spec fn wf(self) -> bool {
        self.playbackstate is Stopped ==> self.queue@.len() == 0
    }

    /// Create a new track manager from scratch: stopped, with nothing queued
    /// and nothing played.
    pub fn new() -> (m: TrackManager)
        ensures
            m.playbackstate is Stopped,
            m.queue@ == Seq::<Track>::empty(),
            m.played@ == Seq::<Track>::empty(),
            m.wf(),
    {
        TrackManager { playbackstate: PlaybackState::Stopped, queue: VecDeque::new(), played: Vec::new() }
    }

    /// Enqueue a track. It is the front end's responsibility to ensure that it
    /// is a known, readable track file. Enqueueing when playback is stopped
    /// with an empty queue changes the state to paused, with the enqueued
    /// track as the paused track; otherwise the track joins the back of the
    /// queue. The played tracks are left alone.
    pub fn enqueue(&mut self, track: Track)
        ensures
            (final(self).playbackstate, final(self).queue@) == after_enqueue(
                old(self).playbackstate,
                old(self).queue@,
                track,
            ),
            final(self).played@ == old(self).played@,
            final(self).lineup() == old(self).lineup().push(track),
            old(self).playbackstate is Stopped && old(self).queue@.len() == 0 ==> (
                final(self).playbackstate == PlaybackState::Paused(track)
                && final(self).queue@ == old(self).queue@),
            !(old(self).playbackstate is Stopped && old(self).queue@.len() == 0) ==> (
                final(self).playbackstate == old(self).playbackstate
                && final(self).queue@ == old(self).queue@.push(track)),
            old(self).wf() ==> final(self).wf(),
            old(self).wf() ==> !(final(self).playbackstate is Stopped),
    {
        let stopped = match &self.playbackstate {
            PlaybackState::Stopped => true,
            _ => false,
        };
        if stopped && self.queue.len() == 0 {
            self.playbackstate = PlaybackState::Paused(track);
            assert(self.lineup() =~= old(self).lineup().push(track));
        } else {
            self.queue.push_back(track);
            assert(self.lineup() =~= old(self).lineup().push(track));
        }
    }

    /// Start playback. Nothing is done yet: the state is left as it is.
    pub fn start_playback(&mut self)
        ensures
            final(self).playbackstate == old(self).playbackstate,
            final(self).queue@ == old(self).queue@,
            final(self).played@ == old(self).played@,
    {
    }
}

/// Enqueueing is first come, first served: enqueueing `tracks` one after
/// another appends them, in order, to the lineup (the loaded track followed
/// by the queue), whatever the state was before.
pub proof fn lemma_enqueue_all_appends(state: PlaybackState, queue: Seq<Track>, tracks: Seq<Track>)
    ensures
        ({
            let (s, q) = after_enqueue_all(state, queue, tracks);
            s.loaded() + q == state.loaded() + queue + tracks
        }),
    decreases tracks.len(),
{
    if tracks.len() > 0 {
        lemma_enqueue_all_appends(state, queue, tracks.drop_last());
        let (s, q) = after_enqueue_all(state, queue, tracks.drop_last());
        assert(tracks.drop_last().push(tracks.last()) =~= tracks);
        let (s2, q2) = after_enqueue(s, q, tracks.last());
        assert(s2.loaded() + q2 =~= (s.loaded() + q).push(tracks.last()));
        assert(state.loaded() + queue + tracks =~= (state.loaded() + queue + tracks.drop_last()).push(
            tracks.last(),
        ));
    }
}

/// On a fresh (stopped, empty) manager, the first track enqueued becomes the
/// paused track and every later one waits in the queue, in the order in which
/// they were enqueued.
pub proof fn lemma_fresh_manager_pauses_first(tracks: Seq<Track>)
    requires
        tracks.len() > 0,
    ensures
        after_enqueue_all(PlaybackState::Stopped, Seq::empty(), tracks) == (
            PlaybackState::Paused(tracks[0]),
            tracks.drop_first(),
        ),
    decreases tracks.len(),
{
    if tracks.len() == 1 {
        assert(tracks.drop_last() =~= Seq::<Track>::empty());
        assert(tracks.drop_first() =~= Seq::<Track>::empty());
        assert(after_enqueue_all(PlaybackState::Stopped, Seq::empty(), tracks.drop_last()) == (
            PlaybackState::Stopped,
            Seq::<Track>::empty(),
        ));
    } else {
        lemma_fresh_manager_pauses_first(tracks.drop_last());
        assert(tracks.drop_last()[0] == tracks[0]);
        assert(tracks.drop_last().drop_first().push(tracks.last()) =~= tracks.drop_first());
    }
}

/// Enqueueing changes the playback state only on a stopped manager with
/// nothing queued; a playing or paused track stays playing or paused, and a
/// stopped manager with tracks waiting stays stopped, the new track going to
/// the back of the queue.
pub proof fn lemma_enqueue_keeps_state_unless_idle(state: PlaybackState, queue: Seq<Track>, track: Track)
    ensures
        state is Playing ==> after_enqueue(state, queue, track) == (state, queue.push(track)),
        state is Paused ==> after_enqueue(state, queue, track) == (state, queue.push(track)),
        state is Stopped && queue.len() > 0 ==> after_enqueue(state, queue, track) == (
            PlaybackState::Stopped,
            queue.push(track),
        ),
        state is Stopped && queue.len() == 0 ==> after_enqueue(state, queue, track) == (
            PlaybackState::Paused(track),
            Seq::<Track>::empty(),
        ),
{
}

/// Any number of enqueues onto a manager with a track loaded (playing or
/// paused) leave that track loaded in the same state, and append the tracks,
/// in order, to the queue.
pub proof fn lemma_enqueue_all_keeps_loaded_track(state: PlaybackState, queue: Seq<Track>, tracks: Seq<Track>)
    requires
        !(state is Stopped),
    ensures
        after_enqueue_all(state, queue, tracks) == (state, queue + tracks),
    decreases tracks.len(),
{
    if tracks.len() == 0 {
        assert(queue + tracks =~= queue);
    } else {
        lemma_enqueue_all_keeps_loaded_track(state, queue, tracks.drop_last());
        assert((queue + tracks.drop_last()).push(tracks.last()) =~= queue + tracks);
    }
}

/// A well-formed manager stays well-formed through any number of enqueues,
/// and is no longer stopped once a track has been enqueued.
pub proof fn lemma_enqueue_all_keeps_wf(state: PlaybackState, queue: Seq<Track>, tracks: Seq<Track>)
    requires
        state is Stopped ==> queue.len() == 0,
    ensures
        ({
            let (s, q) = after_enqueue_all(state, queue, tracks);
            &&& s is Stopped ==> q.len() == 0
            &&& tracks.len() > 0 ==> !(s is Stopped)
        }),
    decreases tracks.len(),
{
    if tracks.len() > 0 {
        lemma_enqueue_all_keeps_wf(state, queue, tracks.drop_last());
    }
}

} // verus!
