use cradle::playback::{
    audio_sink_index, on_bus_event, quits_main_loop, BusAction, BusEvent, Messages,
};

#[test]
fn end_of_stream_reports_done() {
    let r = on_bus_event(BusEvent::EndOfStream);
    assert_eq!(r.action, BusAction::SendDone);
    assert!(r.keep_watching);
}

#[test]
fn error_is_logged() {
    let r = on_bus_event(BusEvent::Error);
    assert_eq!(r.action, BusAction::LogError);
    assert!(r.keep_watching);
}

#[test]
fn other_events_are_ignored() {
    let r = on_bus_event(BusEvent::Other);
    assert_eq!(r.action, BusAction::Ignore);
    assert!(r.keep_watching);
}

#[test]
fn main_loop_quits_only_when_done() {
    assert!(quits_main_loop(&Messages::Done));
    assert!(!quits_main_loop(&Messages::NoMessage));
}

#[test]
fn second_sink_device_is_chosen() {
    assert_eq!(audio_sink_index(0), None);
    assert_eq!(audio_sink_index(1), None);
    assert_eq!(audio_sink_index(2), Some(1));
    assert_eq!(audio_sink_index(7), Some(1));
}
