use media_player::{
    Cleanup, EndReason, Error, GStreamerPlayer, LoopState, MessageLoop, PlayMessage, PlayState,
};

fn drive(msgs: Vec<PlayMessage>) -> (Result<(), Error>, Vec<Cleanup>) {
    let mut lp = MessageLoop::new();
    for m in msgs {
        lp.on_message(m);
    }
    lp.finish()
}

#[test]
fn end_of_stream_ends_successfully_with_cleanup() {
    let (result, cleanup) = drive(vec![
        PlayMessage::StateChanged(PlayState::Buffering),
        PlayMessage::Buffering(40),
        PlayMessage::StateChanged(PlayState::Playing),
        PlayMessage::EndOfStream,
    ]);
    assert_eq!(result, Ok(()));
    assert_eq!(cleanup, vec![Cleanup::Stop, Cleanup::FlushBus]);
}

#[test]
fn error_is_returned_and_cleanup_still_runs() {
    let (result, cleanup) = drive(vec![
        PlayMessage::Other,
        PlayMessage::Error("decoder failed".to_string()),
        PlayMessage::EndOfStream,
    ]);
    assert_eq!(result, Err(Error::PlayMessage("decoder failed".to_string())));
    assert_eq!(cleanup, vec![Cleanup::Stop, Cleanup::FlushBus]);
}

#[test]
fn stopped_state_ends_the_loop() {
    let mut lp = GStreamerPlayer::new().message_loop();
    assert!(lp.is_running());
    lp.on_message(PlayMessage::StateChanged(PlayState::Paused));
    assert!(lp.is_running());
    lp.on_message(PlayMessage::StateChanged(PlayState::Stopped));
    assert!(!lp.is_running());
    lp.on_message(PlayMessage::Error("late".to_string()));
    assert_eq!(lp.finish(), (Ok(()), vec![Cleanup::Stop, Cleanup::FlushBus]));
}

#[test]
fn buffering_and_other_messages_keep_running() {
    let mut lp = MessageLoop::new();
    lp.on_message(PlayMessage::Buffering(0));
    lp.on_message(PlayMessage::Buffering(100));
    lp.on_message(PlayMessage::Other);
    assert!(lp.is_running());
}

#[test]
fn unparsable_message_is_a_parse_error() {
    let (result, cleanup) = drive(vec![PlayMessage::Unparsable(
        "Invalid play message".to_string(),
        "Eos".to_string(),
    )]);
    assert_eq!(
        result,
        Err(Error::PlayMessageParse("Invalid play message".to_string(), "Eos".to_string()))
    );
    assert_eq!(cleanup, vec![Cleanup::Stop, Cleanup::FlushBus]);
}

#[test]
fn closed_bus_ends_successfully() {
    let mut lp = MessageLoop::new();
    lp.on_message(PlayMessage::Buffering(10));
    lp.on_bus_closed();
    assert!(!lp.is_running());
    assert_eq!(lp.finish().0, Ok(()));
}

#[test]
fn closed_bus_keeps_earlier_error() {
    let mut lp = MessageLoop::new();
    lp.on_message(PlayMessage::Error("boom".to_string()));
    lp.on_bus_closed();
    assert_eq!(lp.finish().0, Err(Error::PlayMessage("boom".to_string())));
}

#[test]
fn empty_loop_finishes_successfully() {
    assert_eq!(drive(Vec::new()).0, Ok(()));
}

#[test]
fn loop_state_and_end_reason_values() {
    let s = LoopState::Ended(EndReason::EndOfStream);
    assert_ne!(s, LoopState::Running);
    assert_ne!(EndReason::Stopped, EndReason::BusClosed);
}
