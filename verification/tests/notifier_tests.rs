use spot::notifier::{
    connect_player_command, currently_playing, local_player_command, login_command,
    player_notifier_commands, switch_device_commands, undelivered_local_command_action,
    CurrentlyPlaying, LoginAction,
};
use spot::playback::{
    AppEvent, Command, ConnectCommand, ConnectDevice, Device, LoginEvent, LoginStartedEvent,
    Outgoing, PlaybackEvent, PlaybackSnapshot, RepeatMode, SettingsEvent, SongsSource, Volume,
};
use spot::spotify_id::{track_id_from_base62, TrackId};

const TRACK_A: &str = "4uLU6hMCjMI75M1A2tKUQC";
const TRACK_A_ID: u128 = 196373991439130863212091700994220317246;

fn snapshot(device: Device, source: Option<SongsSource>) -> PlaybackSnapshot {
    PlaybackSnapshot {
        is_playing: true,
        current_song_id: Some(TRACK_A.to_string()),
        current_song_index: Some(1),
        source,
        song_ids: vec!["0000000000000000000001".to_string(), TRACK_A.to_string()],
        device,
    }
}

fn connect_device() -> Device {
    Device::Connect(ConnectDevice { id: "device-7".to_string() })
}

#[test]
fn base62_decodes_valid_ids() {
    assert_eq!(track_id_from_base62(TRACK_A), Some(TrackId { id: TRACK_A_ID }));
    assert_eq!(track_id_from_base62("0000000000000000000001"), Some(TrackId { id: 1 }));
    assert_eq!(track_id_from_base62("7N42dgm5tFLK9N8MT7fHC7"), Some(TrackId { id: u128::MAX }));
}

#[test]
fn base62_rejects_invalid_ids() {
    // one past u128::MAX overflows
    assert_eq!(track_id_from_base62("7N42dgm5tFLK9N8MT7fHC8"), None);
    assert_eq!(track_id_from_base62("zzzzzzzzzzzzzzzzzzzzzz"), None);
    // wrong length
    assert_eq!(track_id_from_base62("4uLU6hMCjMI75M1A2tKUQ"), None);
    assert_eq!(track_id_from_base62(""), None);
    // characters outside base62
    assert_eq!(track_id_from_base62("4uLU6hMCjMI75M1A2tKUQ-"), None);
    assert_eq!(track_id_from_base62("4uLU6hMCjMI75M1A2tKUQé"), None);
}

#[test]
fn currently_playing_with_source() {
    let s = snapshot(Device::Local, Some(SongsSource::Playlist("pl".to_string())));
    match currently_playing(&s) {
        Some(CurrentlyPlaying::WithSource { source, offset, song }) => {
            assert!(matches!(source, SongsSource::Playlist(ref id) if id == "pl"));
            assert_eq!(offset, 1);
            assert_eq!(song, TRACK_A);
        }
        other => panic!("unexpected {:?}", other),
    }
}

#[test]
fn currently_playing_without_uri_uses_song_list() {
    let s = snapshot(Device::Local, Some(SongsSource::SavedTracks));
    let c = currently_playing(&s).unwrap();
    match &c {
        CurrentlyPlaying::Songs { songs, offset } => {
            assert_eq!(songs, &s.song_ids);
            assert_eq!(*offset, 1);
        }
        other => panic!("unexpected {:?}", other),
    }
    assert_eq!(c.song_id(), TRACK_A);
    let none = snapshot(Device::Local, None);
    assert!(matches!(currently_playing(&none), Some(CurrentlyPlaying::Songs { .. })));
}

#[test]
fn currently_playing_needs_song_and_index() {
    let mut s = snapshot(Device::Local, None);
    s.current_song_index = None;
    assert!(currently_playing(&s).is_none());
    let mut s = snapshot(Device::Local, None);
    s.current_song_id = None;
    assert!(currently_playing(&s).is_none());
}

#[test]
fn login_commands() {
    assert_eq!(
        login_command(&LoginEvent::LoginStarted(LoginStartedEvent::Restore)),
        Some(Command::Restore)
    );
    assert_eq!(
        login_command(&LoginEvent::LoginStarted(LoginStartedEvent::InitLogin)),
        Some(Command::InitLogin)
    );
    assert_eq!(
        login_command(&LoginEvent::LoginStarted(LoginStartedEvent::CompleteLogin)),
        Some(Command::CompleteLogin)
    );
    assert_eq!(login_command(&LoginEvent::FreshTokenRequested), Some(Command::RefreshToken));
    assert_eq!(login_command(&LoginEvent::LogoutCompleted), Some(Command::Logout));
    assert_eq!(login_command(&LoginEvent::LoginCompleted), None);
    assert_eq!(login_command(&LoginEvent::LoginFailed), None);
}

#[test]
fn local_commands() {
    let s = snapshot(Device::Local, None);
    let v = Volume { raw: 0.5f64.to_bits(), percent: 50 };
    assert_eq!(local_player_command(&s, &PlaybackEvent::PlaybackPaused), Some(Command::PlayerPause));
    assert_eq!(local_player_command(&s, &PlaybackEvent::PlaybackResumed), Some(Command::PlayerResume));
    assert_eq!(local_player_command(&s, &PlaybackEvent::PlaybackStopped), Some(Command::PlayerStop));
    assert_eq!(local_player_command(&s, &PlaybackEvent::VolumeSet(v)), Some(Command::PlayerSetVolume(v)));
    assert_eq!(local_player_command(&s, &PlaybackEvent::TrackSeeked(42)), Some(Command::PlayerSeek(42)));
    assert_eq!(
        local_player_command(&s, &PlaybackEvent::TrackChanged(TRACK_A.to_string())),
        Some(Command::PlayerLoad { track: TrackId { id: TRACK_A_ID }, resume: true })
    );
    assert_eq!(local_player_command(&s, &PlaybackEvent::TrackChanged("bad".to_string())), None);
    assert_eq!(
        local_player_command(&s, &PlaybackEvent::Preload(TRACK_A.to_string())),
        Some(Command::PlayerPreload(TrackId { id: TRACK_A_ID }))
    );
    assert_eq!(local_player_command(&s, &PlaybackEvent::ShuffleChanged(true)), None);
    assert_eq!(local_player_command(&s, &PlaybackEvent::PlaylistChanged), None);
}

#[test]
fn local_source_change_resumes_as_playing() {
    let mut s = snapshot(Device::Local, None);
    assert_eq!(
        local_player_command(&s, &PlaybackEvent::SourceChanged),
        Some(Command::PlayerLoad { track: TrackId { id: TRACK_A_ID }, resume: true })
    );
    s.is_playing = false;
    assert_eq!(
        local_player_command(&s, &PlaybackEvent::SourceChanged),
        Some(Command::PlayerLoad { track: TrackId { id: TRACK_A_ID }, resume: false })
    );
    s.current_song_index = None;
    assert_eq!(local_player_command(&s, &PlaybackEvent::SourceChanged), None);
}

#[test]
fn connect_commands() {
    let s = snapshot(connect_device(), Some(SongsSource::Album("al".to_string())));
    let v = Volume { raw: 0.25f64.to_bits(), percent: 25 };
    assert!(matches!(
        connect_player_command(&s, &PlaybackEvent::TrackSeeked(42)),
        Some(ConnectCommand::PlayerSeek(42))
    ));
    assert!(matches!(connect_player_command(&s, &PlaybackEvent::PlaybackPaused), Some(ConnectCommand::PlayerPause)));
    assert!(matches!(connect_player_command(&s, &PlaybackEvent::PlaybackResumed), Some(ConnectCommand::PlayerResume)));
    assert!(matches!(connect_player_command(&s, &PlaybackEvent::VolumeSet(v)), Some(ConnectCommand::PlayerSetVolume(25))));
    assert!(matches!(
        connect_player_command(&s, &PlaybackEvent::RepeatModeChanged(RepeatMode::Song)),
        Some(ConnectCommand::PlayerRepeat(RepeatMode::Song))
    ));
    assert!(matches!(
        connect_player_command(&s, &PlaybackEvent::ShuffleChanged(true)),
        Some(ConnectCommand::PlayerShuffle(true))
    ));
    assert!(connect_player_command(&s, &PlaybackEvent::PlaybackStopped).is_none());
    match connect_player_command(&s, &PlaybackEvent::TrackChanged(TRACK_A.to_string())) {
        Some(ConnectCommand::PlayerLoadInContext { source, offset, song }) => {
            assert!(matches!(source, SongsSource::Album(ref id) if id == "al"));
            assert_eq!(offset, 1);
            assert_eq!(song, TRACK_A);
        }
        other => panic!("unexpected {:?}", other),
    }
    let plain = snapshot(connect_device(), None);
    match connect_player_command(&plain, &PlaybackEvent::SourceChanged) {
        Some(ConnectCommand::PlayerLoad { songs, offset }) => {
            assert_eq!(songs, plain.song_ids);
            assert_eq!(offset, 1);
        }
        other => panic!("unexpected {:?}", other),
    }
}

#[test]
fn notifier_routes_to_current_device() {
    let local = snapshot(Device::Local, None);
    let out = player_notifier_commands(&local, &AppEvent::PlaybackEvent(PlaybackEvent::PlaybackPaused));
    assert!(matches!(out.as_slice(), [Outgoing::Local(Command::PlayerPause)]));
    let remote = snapshot(connect_device(), None);
    let out = player_notifier_commands(&remote, &AppEvent::PlaybackEvent(PlaybackEvent::PlaybackPaused));
    assert!(matches!(out.as_slice(), [Outgoing::Connect(ConnectCommand::PlayerPause)]));
}

#[test]
fn notifier_sends_login_commands_to_local_player_always() {
    let remote = snapshot(connect_device(), None);
    let out = player_notifier_commands(&remote, &AppEvent::LoginEvent(LoginEvent::LogoutCompleted));
    assert!(matches!(out.as_slice(), [Outgoing::Local(Command::Logout)]));
    let out = player_notifier_commands(&remote, &AppEvent::LoginEvent(LoginEvent::LoginCompleted));
    assert!(out.is_empty());
}

#[test]
fn notifier_reloads_settings_only_locally() {
    let local = snapshot(Device::Local, None);
    let out = player_notifier_commands(
        &local,
        &AppEvent::SettingsEvent(SettingsEvent::PlayerSettingsChanged),
    );
    assert!(matches!(out.as_slice(), [Outgoing::Local(Command::ReloadSettings)]));
    let remote = snapshot(connect_device(), None);
    let out = player_notifier_commands(
        &remote,
        &AppEvent::SettingsEvent(SettingsEvent::PlayerSettingsChanged),
    );
    assert!(out.is_empty());
    assert!(player_notifier_commands(&local, &AppEvent::Started).is_empty());
}

#[test]
fn switching_to_connect_device() {
    let s = snapshot(Device::Local, Some(SongsSource::Playlist("pl".to_string())));
    let out = switch_device_commands(&s, &connect_device());
    assert_eq!(out.len(), 3);
    assert!(matches!(out[0], Outgoing::Local(Command::PlayerStop)));
    assert!(matches!(&out[1], Outgoing::Connect(ConnectCommand::SetDevice(id)) if id == "device-7"));
    assert!(matches!(&out[2], Outgoing::Connect(ConnectCommand::PlayerLoadInContext { offset: 1, .. })));
    let via_event = player_notifier_commands(
        &s,
        &AppEvent::PlaybackEvent(PlaybackEvent::SwitchedDevice(connect_device())),
    );
    assert_eq!(via_event.len(), 3);
}

#[test]
fn switching_to_local_device() {
    let s = snapshot(connect_device(), None);
    let out = switch_device_commands(&s, &Device::Local);
    assert_eq!(out.len(), 2);
    assert!(matches!(out[0], Outgoing::Connect(ConnectCommand::PlayerStop)));
    assert!(matches!(
        out[1],
        Outgoing::Local(Command::PlayerLoad { track: TrackId { id: TRACK_A_ID }, resume: true })
    ));
    let mut idle = snapshot(connect_device(), None);
    idle.current_song_id = None;
    let out = switch_device_commands(&idle, &Device::Local);
    assert_eq!(out.len(), 1);
}

#[test]
fn undelivered_command_fails_login() {
    assert_eq!(undelivered_local_command_action(), LoginAction::SetLoginFailure);
}

#[test]
fn source_with_uri_needs_no_queue_lookup() {
    let mut s = snapshot(Device::Local, Some(SongsSource::Playlist("pl".to_string())));
    s.current_song_index = Some(5);
    assert_eq!(
        local_player_command(&s, &PlaybackEvent::SourceChanged),
        Some(Command::PlayerLoad { track: TrackId { id: TRACK_A_ID }, resume: true })
    );
}
