use aeiou::playback::{play, AeiouMedia, Ai, AudioCommand, PlaybackStatus};

fn all_statuses() -> Vec<PlaybackStatus> {
    vec![
        PlaybackStatus::Paused { position: 5 },
        PlaybackStatus::Pausing { position: 6 },
        PlaybackStatus::Playing { position: 7 },
        PlaybackStatus::Queued,
        PlaybackStatus::Stopped,
        PlaybackStatus::Stopping { position: 8 },
    ]
}

#[test]
fn toggle_while_playing_pauses() {
    let status = PlaybackStatus::Playing { position: 7 };
    assert_eq!(status.toggle(), (AudioCommand::Pause, AeiouMedia::Paused));
    assert_eq!(status.after_toggle(), PlaybackStatus::Paused { position: 7 });
    assert_eq!(AeiouMedia::Paused.frame(), 0);
}

#[test]
fn toggle_while_paused_resumes() {
    let status = PlaybackStatus::Paused { position: 5 };
    assert_eq!(status.toggle(), (AudioCommand::Resume, AeiouMedia::Play));
    assert_eq!(status.after_toggle(), PlaybackStatus::Playing { position: 5 });
    assert_eq!(AeiouMedia::Play.frame(), 1);
}

#[test]
fn toggle_while_pausing_resumes() {
    let status = PlaybackStatus::Pausing { position: 6 };
    assert_eq!(status.toggle(), (AudioCommand::Resume, AeiouMedia::Play));
    assert_eq!(status.after_toggle(), PlaybackStatus::Playing { position: 6 });
}

#[test]
fn toggle_while_queued_resumes() {
    let status = PlaybackStatus::Queued;
    assert_eq!(status.toggle(), (AudioCommand::Resume, AeiouMedia::Play));
    assert_eq!(status.after_toggle(), PlaybackStatus::Playing { position: 0 });
}

#[test]
fn toggle_while_stopped_starts_over() {
    let status = PlaybackStatus::Stopped;
    assert_eq!(status.toggle(), (AudioCommand::Start, AeiouMedia::Play));
    assert_eq!(status.after_toggle(), PlaybackStatus::Playing { position: 0 });
}

#[test]
fn toggle_while_stopping_starts_over() {
    let status = PlaybackStatus::Stopping { position: 8 };
    assert_eq!(status.toggle(), (AudioCommand::Start, AeiouMedia::Play));
    assert_eq!(status.after_toggle(), PlaybackStatus::Playing { position: 0 });
}

#[test]
fn a_paused_track_is_not_treated_as_stopped() {
    assert_ne!(PlaybackStatus::Paused { position: 0 }.toggle().0, AudioCommand::Start);
    assert_ne!(PlaybackStatus::Stopped.toggle().0, AudioCommand::Resume);
    assert_ne!(PlaybackStatus::Stopping { position: 0 }.toggle().0, AudioCommand::Resume);
    assert_ne!(PlaybackStatus::Queued.toggle().0, AudioCommand::Start);
}

#[test]
fn icon_frame_is_one_exactly_when_not_paused_after_the_toggle() {
    for status in all_statuses() {
        let (_, icon) = status.toggle();
        let frame = icon.frame();
        assert!(frame == 0 || frame == 1);
        let after = status.after_toggle();
        let paused_like = matches!(
            after,
            PlaybackStatus::Paused { .. } | PlaybackStatus::Pausing { .. } | PlaybackStatus::Queued
        );
        assert_eq!(frame == 1, !paused_like);
    }
}

#[test]
fn toggling_twice_from_playing_plays_again_at_the_same_place() {
    let status = PlaybackStatus::Playing { position: 1234 };
    assert_eq!(status.after_toggle().after_toggle(), status);
}

#[test]
fn position_is_known_unless_queued_or_stopped() {
    assert_eq!(PlaybackStatus::Paused { position: 5 }.position(), Some(5));
    assert_eq!(PlaybackStatus::Pausing { position: 6 }.position(), Some(6));
    assert_eq!(PlaybackStatus::Playing { position: 7 }.position(), Some(7));
    assert_eq!(PlaybackStatus::Stopping { position: 8 }.position(), Some(8));
    assert_eq!(PlaybackStatus::Queued.position(), None);
    assert_eq!(PlaybackStatus::Stopped.position(), None);
    assert_eq!(PlaybackStatus::Playing { position: 0 }.position(), Some(0));
    assert_eq!(PlaybackStatus::Playing { position: u64::MAX }.position(), Some(u64::MAX));
}

#[test]
fn play_keeps_the_first_handle() {
    let ai: Ai<u32> = play(41);
    assert_eq!(ai.instance, 41);
}

#[test]
fn restart_replaces_the_stored_handle() {
    let mut ai: Ai<String> = play(String::from("first"));
    ai.replace(String::from("second"));
    assert_eq!(ai, Ai { instance: String::from("second") });
}
