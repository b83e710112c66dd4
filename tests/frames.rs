use media_player::{
    decide_frame, BuildStep, Cleanup, Error, FrameDecision, GStreamerPlayer, MessageLoop,
    PlayMessage, Renderer, SinkSettings, Stage,
};

#[test]
fn frame_with_bytes_and_size_is_delivered() {
    assert_eq!(
        decide_frame(Some((320, 180)), 320 * 180 * 4),
        FrameDecision::Deliver { width: 320, height: 180 }
    );
    assert_eq!(
        decide_frame(Some((65535, 1)), 1),
        FrameDecision::Deliver { width: 65535, height: 1 }
    );
}

#[test]
fn empty_or_zero_sized_frames_are_skipped() {
    assert_eq!(decide_frame(Some((320, 180)), 0), FrameDecision::Skip);
    assert_eq!(decide_frame(Some((0, 180)), 16), FrameDecision::Skip);
    assert_eq!(decide_frame(Some((320, 0)), 16), FrameDecision::Skip);
}

#[test]
fn unreadable_format_is_not_negotiated() {
    assert_eq!(decide_frame(None, 1024), FrameDecision::NotNegotiated);
    assert_eq!(decide_frame(None, 0), FrameDecision::NotNegotiated);
}

#[test]
fn records_frames_at_configured_resolution() {
    let mut player = GStreamerPlayer::new();
    player.set_fps(10);
    player.set_resolution(320, 180);
    let urls = vec!["file:///sample.mp4".to_string()];
    assert!(player.play(&urls).is_ok());

    let caps = player.caps();
    let w = caps.width.unwrap() as u32;
    let h = caps.height.unwrap() as u32;
    let mut seen: Vec<(u16, u16)> = Vec::new();
    for len in [0usize, (w * h * 4) as usize, (w * h * 4) as usize] {
        if let FrameDecision::Deliver { width, height } = decide_frame(Some((w, h)), len) {
            seen.push((width, height));
        }
    }
    let mut lp = player.message_loop();
    lp.on_message(PlayMessage::EndOfStream);
    assert_eq!(lp.finish(), (Ok(()), vec![Cleanup::Stop, Cleanup::FlushBus]));
    assert_eq!(seen, vec![(320, 180), (320, 180)]);
}

#[test]
fn segment_stages_in_link_order() {
    assert_eq!(Renderer::stages(), vec![Stage::VideoRate, Stage::CapsFilter, Stage::AppSink]);
}

#[test]
fn frame_sink_drops_with_bounded_queue() {
    assert_eq!(
        Renderer::sink_settings(),
        SinkSettings { drop: true, max_buffers: 10, wait_on_eos: false }
    );
}

#[test]
fn each_build_step_has_its_error() {
    let m = || "failed".to_string();
    assert_eq!(Renderer::build_error(BuildStep::CreateElement, m()), Error::ElementFactoryMake(m()));
    assert_eq!(Renderer::build_error(BuildStep::AddToBin, m()), Error::BinAdd(m()));
    assert_eq!(Renderer::build_error(BuildStep::LinkElements, m()), Error::ElementLink(m()));
    assert_eq!(Renderer::build_error(BuildStep::SyncState, m()), Error::ElementSync(m()));
}

#[test]
fn message_loop_from_fresh_player_is_running() {
    assert!(MessageLoop::new().is_running());
}
