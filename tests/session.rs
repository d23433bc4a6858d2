use player_core::display::{Rect, ScaleMode};
use player_core::session::{
    check_bus, Action, BusMessage, BusVerdict, FrameStep, Fullscreen, Input, Player, Pulled,
};
use player_core::transport::{PipelineCommand, PipelineState, PlaybackSpeed, PlaybackState};

#[test]
fn bus_error_mid_playback_stops_at_that_message() {
    let msgs = vec![BusMessage::Other, BusMessage::Error, BusMessage::EndOfStream];
    assert_eq!(check_bus(&msgs), BusVerdict::Error { index: 1 });
}

#[test]
fn bus_end_of_stream_stops() {
    let msgs = vec![BusMessage::Other, BusMessage::EndOfStream, BusMessage::Error];
    assert_eq!(check_bus(&msgs), BusVerdict::EndOfStream);
}

#[test]
fn bus_other_messages_are_ignored() {
    assert_eq!(check_bus(&vec![]), BusVerdict::Continue);
    assert_eq!(check_bus(&vec![BusMessage::Other, BusMessage::Other]), BusVerdict::Continue);
}

#[test]
fn new_player_plays_fitted() {
    let p = Player::new(800, 600);
    assert_eq!(p.transport.state, PlaybackState::Playing);
    assert_eq!(p.transport.speed, PlaybackSpeed::Normal);
    assert_eq!(p.scale_mode, ScaleMode::Fit);
    assert_eq!((p.video_width, p.video_height, p.frames), (800, 600, 0));
    assert!(p.wants_frame());
}

#[test]
fn quit_stops() {
    let mut p = Player::new(800, 600);
    assert_eq!(p.handle_input(Input::Quit), vec![Action::Stop]);
}

#[test]
fn mute_sets_zero_and_repeats_the_same() {
    let mut p = Player::new(800, 600);
    let before = p;
    assert_eq!(p.handle_input(Input::Mute), vec![Action::SetVolume(0)]);
    assert_eq!(p, before);
    assert_eq!(p.handle_input(Input::Mute), vec![Action::SetVolume(0)]);
    assert_eq!(p, before);
    // raising after a mute starts from zero, nothing is restored
    assert_eq!(p.handle_input(Input::VolumeUp { current: 0 }), vec![Action::SetVolume(100)]);
}

#[test]
fn volume_keys_step_and_clamp() {
    let mut p = Player::new(800, 600);
    assert_eq!(p.handle_input(Input::VolumeUp { current: 950 }), vec![Action::SetVolume(1000)]);
    assert_eq!(p.handle_input(Input::VolumeDown { current: 50 }), vec![Action::SetVolume(0)]);
    assert_eq!(p.handle_input(Input::VolumeDown { current: 500 }), vec![Action::SetVolume(400)]);
}

#[test]
fn fullscreen_toggles() {
    let mut p = Player::new(800, 600);
    assert_eq!(
        p.handle_input(Input::ToggleFullscreen { state: Fullscreen::Off }),
        vec![Action::SetFullscreen(Fullscreen::Exclusive)]
    );
    assert_eq!(
        p.handle_input(Input::ToggleFullscreen { state: Fullscreen::Desktop }),
        vec![Action::SetFullscreen(Fullscreen::Off)]
    );
    assert_eq!(Fullscreen::Exclusive.toggled(), Fullscreen::Off);
}

#[test]
fn scale_mode_command_changes_only_the_mode() {
    let mut p = Player::new(800, 600);
    assert!(p.handle_input(Input::ToggleScaleMode).is_empty());
    assert_eq!(p.scale_mode, ScaleMode::Fill);
    assert!(p.handle_input(Input::ToggleScaleMode).is_empty());
    assert_eq!(p.scale_mode, ScaleMode::Fit);
}

#[test]
fn pause_stops_pulling_frames() {
    let mut p = Player::new(800, 600);
    assert_eq!(
        p.handle_input(Input::TogglePlayPause),
        vec![Action::Pipeline(PipelineCommand::SetState(PipelineState::Paused))]
    );
    assert!(!p.wants_frame());
    assert_eq!(
        p.handle_input(Input::TogglePlayPause),
        vec![Action::Pipeline(PipelineCommand::SetState(PipelineState::Playing))]
    );
    assert!(p.wants_frame());
}

#[test]
fn speed_command_orders_pause_seek_resume() {
    let mut p = Player::new(800, 600);
    assert_eq!(
        p.handle_input(Input::CycleSpeed { position: Some(42) }),
        vec![
            Action::Pipeline(PipelineCommand::SetState(PipelineState::Paused)),
            Action::Pipeline(PipelineCommand::Seek { rate_percent: 150, position: 42 }),
            Action::Pipeline(PipelineCommand::SetState(PipelineState::Playing)),
        ]
    );
    assert!(p.handle_input(Input::CycleSpeed { position: None }).is_empty());
    assert_eq!(p.transport.speed, PlaybackSpeed::Double);
    assert_eq!(p.transport.state, PlaybackState::Playing);
}

#[test]
fn new_frame_size_reallocates_and_draws() {
    let mut p = Player::new(800, 600);
    let step = p.on_pull(Pulled::Frame { width: 1920, height: 1080 }, 800, 600);
    assert_eq!(
        step,
        FrameStep::Show {
            reallocate: true,
            target: Some(Rect { x: 0, y: 75, width: 800, height: 450 })
        }
    );
    assert_eq!((p.video_width, p.video_height, p.frames), (1920, 1080, 1));
    let step = p.on_pull(Pulled::Frame { width: 1920, height: 1080 }, 800, 600);
    assert_eq!(
        step,
        FrameStep::Show {
            reallocate: false,
            target: Some(Rect { x: 0, y: 75, width: 800, height: 450 })
        }
    );
    assert_eq!(p.frames, 2);
}

#[test]
fn empty_frame_is_not_drawn() {
    let mut p = Player::new(800, 600);
    let step = p.on_pull(Pulled::Frame { width: 0, height: 1080 }, 800, 600);
    assert_eq!(step, FrameStep::Show { reallocate: true, target: None });
    assert_eq!(p.frames, 0);
}

#[test]
fn timeout_idles_or_stops_at_end_of_stream() {
    let mut p = Player::new(800, 600);
    assert_eq!(p.on_pull(Pulled::Nothing { end_of_stream: false }, 800, 600), FrameStep::Idle);
    assert_eq!(p.on_pull(Pulled::Nothing { end_of_stream: true }, 800, 600), FrameStep::Stop);
    assert_eq!(p, Player::new(800, 600));
}

#[test]
fn frame_rate_reported_once_a_second_elapsed() {
    let mut p = Player::new(800, 600);
    p.frames = 61;
    assert_eq!(p.on_clock(0), None);
    assert_eq!(p.frames, 61);
    assert_eq!(p.on_clock(2), Some(30));
    assert_eq!(p.frames, 0);
    assert_eq!(p.on_clock(1), Some(0));
}

#[test]
fn frame_counter_saturates() {
    let mut p = Player::new(1, 1);
    p.frames = u64::MAX;
    p.on_pull(Pulled::Frame { width: 1, height: 1 }, 1, 1);
    assert_eq!(p.frames, u64::MAX);
}
