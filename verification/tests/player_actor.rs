use rwave::player::{PlaybackCommand, Player, PlayerError, PlayerEvent};
use rwave::worker::{poll, run_steps, seek_in_range, step, DeviceAction, Phase, WorkerInput, WorkerState};

fn playing(duration: u64) -> WorkerState {
    WorkerState { phase: Phase::Playing, duration, live: true }
}

#[test]
fn load_success_starts_playback() {
    let s = WorkerState::initial();
    let r = step(&s, &WorkerInput::Load { decoded: Some(180) });
    assert_eq!(r.state, playing(180));
    assert_eq!(r.events, vec![PlayerEvent::Playing]);
    assert_eq!(r.error, None);
    assert_eq!(r.action, DeviceAction::BeginPlayback);
}

#[test]
fn load_replaces_previous_source() {
    let s = playing(100);
    let r = step(&s, &WorkerInput::Load { decoded: Some(42) });
    assert_eq!(r.state, playing(42));
    assert_eq!(r.events, vec![PlayerEvent::Playing]);
}

#[test]
fn load_decode_failure_is_a_no_op_with_error() {
    let s = playing(100);
    let r = step(&s, &WorkerInput::Load { decoded: None });
    assert_eq!(r.state, s);
    assert!(r.events.is_empty());
    assert_eq!(r.error, Some(PlayerError::DecodeError));
    assert_eq!(r.action, DeviceAction::Stay);
}

#[test]
fn play_from_idle_is_a_no_op() {
    let s = WorkerState::initial();
    let r = step(&s, &WorkerInput::Play);
    assert_eq!(r.state, s);
    assert!(r.events.is_empty());
    assert_eq!(r.error, None);
    assert_eq!(r.action, DeviceAction::Stay);
}

#[test]
fn play_resumes_from_paused() {
    let s = WorkerState { phase: Phase::Paused, duration: 90, live: true };
    let r = step(&s, &WorkerInput::Play);
    assert_eq!(r.state, playing(90));
    assert_eq!(r.events, vec![PlayerEvent::Playing]);
    assert_eq!(r.action, DeviceAction::Resume);
}

#[test]
fn pause_when_already_paused_is_a_no_op() {
    let s = WorkerState { phase: Phase::Paused, duration: 90, live: true };
    let r = step(&s, &WorkerInput::Pause);
    assert_eq!(r.state, s);
    assert!(r.events.is_empty());
    assert_eq!(r.action, DeviceAction::Stay);
}

#[test]
fn load_then_pause_emits_playing_then_paused() {
    let s = WorkerState::initial();
    let inputs = vec![WorkerInput::Load { decoded: Some(200) }, WorkerInput::Pause];
    let (end, events) = run_steps(&s, &inputs);
    assert_eq!(events, vec![PlayerEvent::Playing, PlayerEvent::Paused]);
    assert_eq!(end.phase, Phase::Paused);
    assert_eq!(end.duration, 200);
}

#[test]
fn events_keep_command_order() {
    let s = WorkerState::initial();
    let inputs = vec![
        WorkerInput::Load { decoded: Some(30) },
        WorkerInput::Pause,
        WorkerInput::Play,
        WorkerInput::Seek { position: 10, seek_supported: true },
    ];
    let (_, events) = run_steps(&s, &inputs);
    assert_eq!(
        events,
        vec![
            PlayerEvent::Playing,
            PlayerEvent::Paused,
            PlayerEvent::Playing,
            PlayerEvent::Seeked { position: 10 },
        ]
    );
}

#[test]
fn seek_beyond_duration_fails_without_event() {
    let s = playing(60);
    let r = step(&s, &WorkerInput::Seek { position: 61, seek_supported: true });
    assert_eq!(r.error, Some(PlayerError::SeekError));
    assert!(r.events.is_empty());
    assert_eq!(r.state, s);
}

#[test]
fn seek_unsupported_source_fails() {
    let s = playing(60);
    let r = step(&s, &WorkerInput::Seek { position: 10, seek_supported: false });
    assert_eq!(r.error, Some(PlayerError::SeekError));
    assert!(r.events.is_empty());
    assert_eq!(r.state, s);
}

#[test]
fn seek_in_range_keeps_phase() {
    let s = WorkerState { phase: Phase::Paused, duration: 60, live: true };
    assert!(seek_in_range(&s, 60));
    assert!(!seek_in_range(&s, 61));
    let r = step(&s, &WorkerInput::Seek { position: 60, seek_supported: true });
    assert_eq!(r.error, None);
    assert_eq!(r.events, vec![PlayerEvent::Seeked { position: 60 }]);
    assert_eq!(r.state.phase, Phase::Paused);
}

#[test]
fn seek_while_idle_fails() {
    let s = WorkerState::initial();
    let r = step(&s, &WorkerInput::Seek { position: 0, seek_supported: true });
    assert_eq!(r.error, Some(PlayerError::SeekError));
    assert!(r.events.is_empty());
}

#[test]
fn terminate_releases_device_and_silences_poller() {
    let s = playing(120);
    let r = step(&s, &WorkerInput::Terminate);
    assert!(!r.state.live);
    assert_eq!(r.action, DeviceAction::Release);
    assert!(r.events.is_empty());
    assert_eq!(poll(&r.state, 55), None);
    let after = step(&r.state, &WorkerInput::Load { decoded: Some(10) });
    assert_eq!(after.state, r.state);
    assert!(after.events.is_empty());
}

#[test]
fn poller_reports_position_and_duration_while_live() {
    let s = playing(120);
    assert_eq!(
        poll(&s, 55),
        Some(PlayerEvent::PositionUpdate { position: 55, duration: 120 })
    );
    let idle = WorkerState::initial();
    assert_eq!(
        poll(&idle, 0),
        Some(PlayerEvent::PositionUpdate { position: 0, duration: 0 })
    );
}

#[test]
fn facade_queues_commands_in_order() {
    let mut p: Player<String> = Player::spawn();
    p.load(String::from("a.mp3")).unwrap();
    p.play().unwrap();
    p.pause().unwrap();
    p.seek(7).unwrap();
    assert!(matches!(p.next_command(), Some(PlaybackCommand::Load(path)) if path == "a.mp3"));
    assert!(matches!(p.next_command(), Some(PlaybackCommand::Play)));
    assert!(matches!(p.next_command(), Some(PlaybackCommand::Pause)));
    assert!(matches!(p.next_command(), Some(PlaybackCommand::Seek(7))));
    assert!(p.next_command().is_none());
}

#[test]
fn terminate_closes_the_channel() {
    let mut p: Player<String> = Player::spawn();
    assert!(p.queue.still_open());
    p.terminate().unwrap();
    assert!(!p.queue.still_open());
    assert_eq!(p.play(), Err(PlayerError::ChannelClosed));
    assert_eq!(p.load(String::from("b.mp3")), Err(PlayerError::ChannelClosed));
    assert_eq!(p.terminate(), Err(PlayerError::ChannelClosed));
    assert!(matches!(p.next_command(), Some(PlaybackCommand::Terminate)));
}
