use vstd::prelude::*;

use crate::spotify_id::TrackId;

verus! {

/// What the player repeats once the queue reaches its end.
#[derive(Clone, Copy, Debug, PartialEq, Eq, Structural)]
pub enum RepeatMode {
    Song,
    Playlist,
    Off,
}

/// Where the songs in the queue come from.
#[derive(Debug)]
pub enum SongsSource {
    Playlist(String),
    Album(String),
    SavedTracks,
}

impl SongsSource {
    /// A playlist or an album has a Spotify URI of its own; saved tracks do not.
    pub open spec fn spotify_uri_exists(&self) -> bool {
        match self {
            SongsSource::Playlist(_) => true,
            SongsSource::Album(_) => true,
            SongsSource::SavedTracks => false,
        }
    }

    pub fn has_spotify_uri(&self) -> (has: bool)
        ensures
            has == self.spotify_uri_exists(),
    {
        match self {
            SongsSource::Playlist(_) => true,
            SongsSource::Album(_) => true,
            SongsSource::SavedTracks => false,
        }
    }

    /// An exact copy of the source.
    pub fn duplicate(&self) -> (copy: SongsSource)
        ensures
            copy == *self,
    {
        match self {
            SongsSource::Playlist(id) => SongsSource::Playlist(id.clone()),
            SongsSource::Album(id) => SongsSource::Album(id.clone()),
            SongsSource::SavedTracks => SongsSource::SavedTracks,
        }
    }
}

/// A Spotify Connect device that playback can be handed to.
#[derive(Debug)]
pub struct ConnectDevice {
    pub id: String,
}

/// The device that plays the music: this machine, or a Spotify Connect device.
#[derive(Debug)]
pub enum Device {
    Local,
    Connect(ConnectDevice),
}

/// A volume level. `raw` holds the bits of the level as a fraction in
/// `[0, 1]` (an `f64`); `percent` is that fraction times 100, truncated.
#[derive(Clone, Copy, Debug, PartialEq, Eq, Structural)]
pub struct Volume {
    pub raw: u64,
    pub percent: u8,
}

/// Events of the playback state.
#[derive(Debug)]
pub enum PlaybackEvent {
    PlaybackPaused,
    PlaybackResumed,
    PlaybackStopped,
    VolumeSet(Volume),
    TrackSeeked(u32),
    TrackChanged(String),
    SourceChanged,
    Preload(String),
    RepeatModeChanged(RepeatMode),
    ShuffleChanged(bool),
    SwitchedDevice(Device),
    PlaylistChanged,
}

/// How a login begins.
#[derive(Clone, Copy, Debug, PartialEq, Eq, Structural)]
pub enum LoginStartedEvent {
    Restore,
    InitLogin,
    CompleteLogin,
}

/// Events of the login state.
#[derive(Clone, Copy, Debug, PartialEq, Eq, Structural)]
pub enum LoginEvent {
    LoginStarted(LoginStartedEvent),
    FreshTokenRequested,
    LogoutCompleted,
    LoginCompleted,
    LoginFailed,
}

/// Events of the settings.
#[derive(Clone, Copy, Debug, PartialEq, Eq, Structural)]
pub enum SettingsEvent {
    PlayerSettingsChanged,
}

/// Events of the browser.
#[derive(Debug)]
pub enum BrowserEvent {
    PlaylistDetailsLoaded(String),
    AlbumDetailsLoaded(String),
}

/// Events of the track selection.
#[derive(Clone, Copy, Debug, PartialEq, Eq, Structural)]
pub enum SelectionEvent {
    SelectionModeChanged(bool),
    SelectionChanged,
}

/// The events that the components of the application react to.
#[derive(Debug)]
pub enum AppEvent {
    Started,
    LoginEvent(LoginEvent),
    PlaybackEvent(PlaybackEvent),
    SettingsEvent(SettingsEvent),
    BrowserEvent(BrowserEvent),
    SelectionEvent(SelectionEvent),
}

/// What the player notifier reads of the playback state.
#[derive(Debug)]
pub struct PlaybackSnapshot {
    pub is_playing: bool,
    pub current_song_id: Option<String>,
    /// Position of the current song in `song_ids`.
    pub current_song_index: Option<usize>,
    pub source: Option<SongsSource>,
    /// Ids of the songs in the queue, in order.
    pub song_ids: Vec<String>,
    pub device: Device,
}

/// Commands for the player that runs on this machine.
#[derive(Clone, Copy, Debug, PartialEq, Eq, Structural)]
pub enum Command {
    Restore,
    InitLogin,
    CompleteLogin,
    RefreshToken,
    Logout,
    PlayerPause,
    PlayerResume,
    PlayerStop,
    PlayerSetVolume(Volume),
    PlayerLoad { track: TrackId, resume: bool },
    PlayerSeek(u32),
    PlayerPreload(TrackId),
    ReloadSettings,
}

/// Commands for the Spotify Connect player.
#[derive(Debug)]
pub enum ConnectCommand {
    SetDevice(String),
    PlayerLoadInContext { source: SongsSource, offset: usize, song: String },
    PlayerLoad { songs: Vec<String>, offset: usize },
    PlayerResume,
    PlayerPause,
    PlayerStop,
    PlayerSeek(usize),
    PlayerRepeat(RepeatMode),
    PlayerShuffle(bool),
    PlayerSetVolume(u8),
}

/// A Connect command, with its list of songs taken as a sequence.
pub enum ConnectCommandView {
    SetDevice(String),
    PlayerLoadInContext { source: SongsSource, offset: usize, song: String },
    PlayerLoad { songs: Seq<String>, offset: usize },
    PlayerResume,
    PlayerPause,
    PlayerStop,
    PlayerSeek(usize),
    PlayerRepeat(RepeatMode),
    PlayerShuffle(bool),
    PlayerSetVolume(u8),
}

impl View for ConnectCommand {
    type V = ConnectCommandView;

    open spec fn view(&self) -> ConnectCommandView {
        match self {
            ConnectCommand::SetDevice(id) => ConnectCommandView::SetDevice(*id),
            ConnectCommand::PlayerLoadInContext { source, offset, song } => {
                ConnectCommandView::PlayerLoadInContext { source: *source, offset: *offset, song: *song }
            },
            ConnectCommand::PlayerLoad { songs, offset } => {
                ConnectCommandView::PlayerLoad { songs: songs@, offset: *offset }
            },
            ConnectCommand::PlayerResume => ConnectCommandView::PlayerResume,
            ConnectCommand::PlayerPause => ConnectCommandView::PlayerPause,
            ConnectCommand::PlayerStop => ConnectCommandView::PlayerStop,
            ConnectCommand::PlayerSeek(p) => ConnectCommandView::PlayerSeek(*p),
            ConnectCommand::PlayerRepeat(m) => ConnectCommandView::PlayerRepeat(*m),
            ConnectCommand::PlayerShuffle(b) => ConnectCommandView::PlayerShuffle(*b),
            ConnectCommand::PlayerSetVolume(v) => ConnectCommandView::PlayerSetVolume(*v),
        }
    }
}

/// A command, addressed to one of the two players.
#[derive(Debug)]
pub enum Outgoing {
    Local(Command),
    Connect(ConnectCommand),
}

pub enum OutgoingView {
    Local(Command),
    Connect(ConnectCommandView),
}

impl View for Outgoing {
    type V = OutgoingView;

    open spec fn view(&self) -> OutgoingView {
        match self {
            Outgoing::Local(c) => OutgoingView::Local(*c),
            Outgoing::Connect(c) => OutgoingView::Connect(c@),
        }
    }
}

} // verus!
