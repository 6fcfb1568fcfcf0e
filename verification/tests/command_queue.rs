use rwave::channel::CommandQueue;
use rwave::player::{PlaybackCommand, PlayerError};

#[test]
fn queue_delivers_in_submission_order() {
    let mut q = CommandQueue::new();
    assert!(q.still_open());
    assert_eq!(q.len(), 0);
    q.submit(PlaybackCommand::Play).unwrap();
    q.submit(PlaybackCommand::Pause).unwrap();
    q.submit(PlaybackCommand::Seek(3)).unwrap();
    assert_eq!(q.len(), 3);
    assert!(matches!(q.recv(), Some(PlaybackCommand::Play)));
    assert!(matches!(q.recv(), Some(PlaybackCommand::Pause)));
    assert!(matches!(q.recv(), Some(PlaybackCommand::Seek(3))));
    assert!(q.recv().is_none());
}

#[test]
fn closed_queue_refuses_submissions_but_still_drains() {
    let mut q = CommandQueue::new();
    q.submit(PlaybackCommand::Play).unwrap();
    q.close();
    assert!(!q.still_open());
    assert_eq!(q.submit(PlaybackCommand::Pause), Err(PlayerError::ChannelClosed));
    assert_eq!(q.len(), 1);
    assert!(matches!(q.recv(), Some(PlaybackCommand::Play)));
}
