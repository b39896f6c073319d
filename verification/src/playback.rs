//! The decisions of the playback side: how the player reacts to what its
//! pipeline reports, and which audio device it plays on. The pipeline itself
//! (GStreamer) is driven by the application around the library.
use vstd::prelude::*;

verus! {

/// Messages that the playback side sends to the rest of the program.
#[derive(Debug, PartialEq, Eq, Structural)]
pub enum Messages {
    /// Nothing to report.
    NoMessage,
    /// The song has been played to its end.
    Done,
}

/// What the pipeline's message bus reports, as far as the player cares.
#[derive(Debug, PartialEq, Eq, Structural)]
pub enum BusEvent {
    /// The end of the stream was reached.
    EndOfStream,
    /// The pipeline hit an error.
    Error,
    /// Anything else.
    Other,
}

/// What the player does about a bus event.
#[derive(Debug, PartialEq, Eq, Structural)]
pub enum BusAction {
    /// Tell the rest of the program that the song is done ([`Messages::Done`]).
    SendDone,
    /// Record the error in the debug log.
    LogError,
    /// Nothing.
    Ignore,
}

/// The player's reaction to one bus event.
#[derive(Debug, PartialEq, Eq, Structural)]
pub struct BusReply {
    /// What to do now.
    pub action: BusAction,
    /// Whether to keep listening to the bus afterwards.
    pub keep_watching: bool,
}

/// React to a bus event: the end of the stream is reported as done, an error
/// is logged, anything else is ignored; the bus is watched on in every case.
pub fn on_bus_event(event: BusEvent) -> (r: BusReply)
    ensures
        r.keep_watching,
        event == BusEvent::EndOfStream ==> r.action == BusAction::SendDone,
        event == BusEvent::Error ==> r.action == BusAction::LogError,
        event == BusEvent::Other ==> r.action == BusAction::Ignore,
{
    let action = match event {
        BusEvent::EndOfStream => BusAction::SendDone,
        BusEvent::Error => BusAction::LogError,
        BusEvent::Other => BusAction::Ignore,
    };
    BusReply { action, keep_watching: true }
}

/// Whether the main loop stops on a message from the playback side: it stops
/// once the song is done.
pub fn quits_main_loop(msg: &Messages) -> (quit: bool)
    ensures
        quit == (*msg == Messages::Done),
{
    match msg {
        Messages::Done => true,
        Messages::NoMessage => false,
    }
}

/// Which of the `device_count` audio sink devices found is played on: the
/// second one, the first being passed over; none when fewer than two were
/// found.
pub fn audio_sink_index(device_count: usize) -> (r: Option<usize>)
    ensures
        device_count >= 2 ==> r == Some(1usize),
        device_count < 2 ==> r is None,
{
    if device_count >= 2 {
        Some(1)
    } else {
        None
    }
}

} // verus!
