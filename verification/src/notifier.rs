use vstd::prelude::*;

use crate::playback::{
    AppEvent, Command, ConnectCommand, ConnectCommandView, Device, LoginEvent, LoginStartedEvent,
    Outgoing, OutgoingView, PlaybackEvent, PlaybackSnapshot, SettingsEvent, SongsSource,
};
use crate::spotify_id::{spotify_id_value, track_id_from_base62, TrackId};

verus! {

/// The song that is playing, and what the Connect player needs to load it.
#[derive(Debug)]
pub enum CurrentlyPlaying {
    /// Playing from a source with a Spotify URI: the song at `offset` in it.
    WithSource { source: SongsSource, offset: usize, song: String },
    /// Playing a plain list of songs: the one at `offset`.
    Songs { songs: Vec<String>, offset: usize },
}

/// A currently playing song, with its list of songs taken as a sequence.
pub enum CurrentlyPlayingView {
    WithSource { source: SongsSource, offset: usize, song: String },
    Songs { songs: Seq<String>, offset: usize },
}

impl View for CurrentlyPlaying {
    type V = CurrentlyPlayingView;

    open spec fn view(&self) -> CurrentlyPlayingView {
        match self {
            CurrentlyPlaying::WithSource { source, offset, song } => {
                CurrentlyPlayingView::WithSource { source: *source, offset: *offset, song: *song }
            },
            CurrentlyPlaying::Songs { songs, offset } => {
                CurrentlyPlayingView::Songs { songs: songs@, offset: *offset }
            },
        }
    }
}

impl CurrentlyPlayingView {
    /// A plain list of songs has a song at `offset`.
    pub open spec fn well_formed(self) -> bool {
        match self {
            CurrentlyPlayingView::WithSource { .. } => true,
            CurrentlyPlayingView::Songs { songs, offset } => offset < songs.len(),
        }
    }

    /// The id of the song that plays.
    pub open spec fn playing_song(self) -> String {
        match self {
            CurrentlyPlayingView::WithSource { song, .. } => song,
            CurrentlyPlayingView::Songs { songs, offset } => songs[offset as int],
        }
    }
}

impl CurrentlyPlaying {
    /// The id of the song that plays.
    pub fn song_id(&self) -> (id: &String)
        requires
            self@.well_formed(),
        ensures
            *id == self@.playing_song(),
    {
        match self {
            CurrentlyPlaying::WithSource { song, .. } => song,
            CurrentlyPlaying::Songs { songs, offset } => &songs[*offset],
        }
    }
}

/// The song that the playback state says is playing, if any.
pub open spec fn currently_playing_of(s: PlaybackSnapshot) -> Option<CurrentlyPlayingView> {
    match (s.current_song_id, s.current_song_index) {
        (Some(song), Some(offset)) => Some(
            match s.source {
                Some(source) => if source.spotify_uri_exists() {
                    CurrentlyPlayingView::WithSource { source, offset, song }
                } else {
                    CurrentlyPlayingView::Songs { songs: s.song_ids@, offset }
                },
                None => CurrentlyPlayingView::Songs { songs: s.song_ids@, offset },
            },
        ),
        _ => None,
    }
}

/// When the song that plays comes from a plain list of songs, its position
/// lies inside that list.
pub open spec fn current_song_in_queue(s: PlaybackSnapshot) -> bool {
    currently_playing_of(s) matches Some(c) ==> c.well_formed()
}

fn copy_ids(ids: &Vec<String>) -> (copy: Vec<String>)
    ensures
        copy@ == ids@,
{
    let mut copy: Vec<String> = Vec::new();
    let mut i: usize = 0;
    while i < ids.len()
        invariant
            i <= ids.len(),
            copy@ == ids@.take(i as int),
        decreases ids.len() - i,
    {
        copy.push(ids[i].clone());
        i = i + 1;
        assert(copy@ =~= ids@.take(i as int));
    }
    assert(ids@.take(i as int) =~= ids@);
    copy
}

/// Reads the currently playing song off the playback state.
pub fn currently_playing(s: &PlaybackSnapshot) -> (playing: Option<CurrentlyPlaying>)
    ensures
        match currently_playing_of(*s) {
            Some(v) => playing matches Some(p) && p@ == v,
            None => playing is None,
        },
{
    let song = match &s.current_song_id {
        Some(song) => song.clone(),
        None => return None,
    };
    let offset = match s.current_song_index {
        Some(offset) => offset,
        None => return None,
    };
    let result = match &s.source {
        Some(source) if source.has_spotify_uri() => CurrentlyPlaying::WithSource {
            source: source.duplicate(),
            offset,
            song,
        },
        _ => CurrentlyPlaying::Songs { songs: copy_ids(&s.song_ids), offset },
    };
    Some(result)
}

/// The command for the local player that a login event calls for.
pub open spec fn login_command_for(e: LoginEvent) -> Option<Command> {
    match e {
        LoginEvent::LoginStarted(LoginStartedEvent::Restore) => Some(Command::Restore),
        LoginEvent::LoginStarted(LoginStartedEvent::InitLogin) => Some(Command::InitLogin),
        LoginEvent::LoginStarted(LoginStartedEvent::CompleteLogin) => Some(Command::CompleteLogin),
        LoginEvent::FreshTokenRequested => Some(Command::RefreshToken),
        LoginEvent::LogoutCompleted => Some(Command::Logout),
        _ => None,
    }
}

/// Which command a login event sends to the local player.
pub fn login_command(e: &LoginEvent) -> (command: Option<Command>)
    ensures
        command == login_command_for(*e),
{
    match e {
        LoginEvent::LoginStarted(LoginStartedEvent::Restore) => Some(Command::Restore),
        LoginEvent::LoginStarted(LoginStartedEvent::InitLogin) => Some(Command::InitLogin),
        LoginEvent::LoginStarted(LoginStartedEvent::CompleteLogin) => Some(Command::CompleteLogin),
        LoginEvent::FreshTokenRequested => Some(Command::RefreshToken),
        LoginEvent::LogoutCompleted => Some(Command::Logout),
        _ => None,
    }
}

/// The Connect command that loads the currently playing song.
pub open spec fn connect_load_for(s: PlaybackSnapshot) -> Option<ConnectCommandView> {
    match currently_playing_of(s) {
        Some(CurrentlyPlayingView::WithSource { source, offset, song }) => Some(
            ConnectCommandView::PlayerLoadInContext { source, offset, song },
        ),
        Some(CurrentlyPlayingView::Songs { songs, offset }) => Some(
            ConnectCommandView::PlayerLoad { songs, offset },
        ),
        None => None,
    }
}

/// The command for the Connect player that a playback event calls for.
pub open spec fn connect_command_for(s: PlaybackSnapshot, e: PlaybackEvent) -> Option<ConnectCommandView> {
    match e {
        PlaybackEvent::TrackChanged(_) => connect_load_for(s),
        PlaybackEvent::SourceChanged => connect_load_for(s),
        PlaybackEvent::TrackSeeked(position) => Some(ConnectCommandView::PlayerSeek(position as usize)),
        PlaybackEvent::PlaybackPaused => Some(ConnectCommandView::PlayerPause),
        PlaybackEvent::PlaybackResumed => Some(ConnectCommandView::PlayerResume),
        PlaybackEvent::VolumeSet(volume) => Some(ConnectCommandView::PlayerSetVolume(volume.percent)),
        PlaybackEvent::RepeatModeChanged(mode) => Some(ConnectCommandView::PlayerRepeat(mode)),
        PlaybackEvent::ShuffleChanged(shuffled) => Some(ConnectCommandView::PlayerShuffle(shuffled)),
        _ => None,
    }
}

fn connect_load(s: &PlaybackSnapshot) -> (command: Option<ConnectCommand>)
    ensures
        match connect_load_for(*s) {
            Some(v) => command matches Some(c) && c@ == v,
            None => command is None,
        },
{
    match currently_playing(s) {
        Some(CurrentlyPlaying::WithSource { source, offset, song }) => Some(
            ConnectCommand::PlayerLoadInContext { source, offset, song },
        ),
        Some(CurrentlyPlaying::Songs { songs, offset }) => Some(ConnectCommand::PlayerLoad { songs, offset }),
        None => None,
    }
}

/// Which command a playback event sends to the Spotify Connect player.
pub fn connect_player_command(s: &PlaybackSnapshot, e: &PlaybackEvent) -> (command: Option<ConnectCommand>)
    ensures
        match connect_command_for(*s, *e) {
            Some(v) => command matches Some(c) && c@ == v,
            None => command is None,
        },
{
    match e {
        PlaybackEvent::TrackChanged(_) => connect_load(s),
        PlaybackEvent::SourceChanged => connect_load(s),
        PlaybackEvent::TrackSeeked(position) => Some(ConnectCommand::PlayerSeek(*position as usize)),
        PlaybackEvent::PlaybackPaused => Some(ConnectCommand::PlayerPause),
        PlaybackEvent::PlaybackResumed => Some(ConnectCommand::PlayerResume),
        PlaybackEvent::VolumeSet(volume) => Some(ConnectCommand::PlayerSetVolume(volume.percent)),
        PlaybackEvent::RepeatModeChanged(mode) => Some(ConnectCommand::PlayerRepeat(*mode)),
        PlaybackEvent::ShuffleChanged(shuffled) => Some(ConnectCommand::PlayerShuffle(*shuffled)),
        _ => None,
    }
}

/// The track that a base62 id names, if it is a valid id.
pub open spec fn track_named(id: Seq<char>) -> Option<TrackId> {
    match spotify_id_value(id) {
        Some(v) => Some(TrackId { id: v }),
        None => None,
    }
}

/// The local command that loads the currently playing song again.
pub open spec fn local_reload_for(s: PlaybackSnapshot) -> Option<Command> {
    match currently_playing_of(s) {
        Some(c) => match track_named(c.playing_song()@) {
            Some(track) => Some(Command::PlayerLoad { track, resume: s.is_playing }),
            None => None,
        },
        None => None,
    }
}

/// The command for the local player that a playback event calls for.
pub open spec fn local_command_for(s: PlaybackSnapshot, e: PlaybackEvent) -> Option<Command> {
    match e {
        PlaybackEvent::PlaybackPaused => Some(Command::PlayerPause),
        PlaybackEvent::PlaybackResumed => Some(Command::PlayerResume),
        PlaybackEvent::PlaybackStopped => Some(Command::PlayerStop),
        PlaybackEvent::VolumeSet(volume) => Some(Command::PlayerSetVolume(volume)),
        PlaybackEvent::TrackChanged(id) => match track_named(id@) {
            Some(track) => Some(Command::PlayerLoad { track, resume: true }),
            None => None,
        },
        PlaybackEvent::SourceChanged => local_reload_for(s),
        PlaybackEvent::TrackSeeked(position) => Some(Command::PlayerSeek(position)),
        PlaybackEvent::Preload(id) => match track_named(id@) {
            Some(track) => Some(Command::PlayerPreload(track)),
            None => None,
        },
        _ => None,
    }
}

fn local_reload(s: &PlaybackSnapshot) -> (command: Option<Command>)
    requires
        current_song_in_queue(*s),
    ensures
        command == local_reload_for(*s),
{
    let resume = s.is_playing;
    match currently_playing(s) {
        Some(c) => match track_id_from_base62(c.song_id().as_str()) {
            Some(track) => Some(Command::PlayerLoad { track, resume }),
            None => None,
        },
        None => None,
    }
}

/// Which command a playback event sends to the local player.
pub fn local_player_command(s: &PlaybackSnapshot, e: &PlaybackEvent) -> (command: Option<Command>)
    requires
        *e is SourceChanged ==> current_song_in_queue(*s),
    ensures
        command == local_command_for(*s, *e),
{
    match e {
        PlaybackEvent::PlaybackPaused => Some(Command::PlayerPause),
        PlaybackEvent::PlaybackResumed => Some(Command::PlayerResume),
        PlaybackEvent::PlaybackStopped => Some(Command::PlayerStop),
        PlaybackEvent::VolumeSet(volume) => Some(Command::PlayerSetVolume(*volume)),
        PlaybackEvent::TrackChanged(id) => match track_id_from_base62(id.as_str()) {
            Some(track) => Some(Command::PlayerLoad { track, resume: true }),
            None => None,
        },
        PlaybackEvent::SourceChanged => local_reload(s),
        PlaybackEvent::TrackSeeked(position) => Some(Command::PlayerSeek(*position)),
        PlaybackEvent::Preload(id) => match track_id_from_base62(id.as_str()) {
            Some(track) => Some(Command::PlayerPreload(track)),
            None => None,
        },
        _ => None,
    }
}

/// A local command that may be there, as a sequence of zero or one commands.
pub open spec fn to_local(c: Option<Command>) -> Seq<OutgoingView> {
    match c {
        Some(c) => seq![OutgoingView::Local(c)],
        None => Seq::empty(),
    }
}

/// A Connect command that may be there, as a sequence of zero or one commands.
pub open spec fn to_connect(c: Option<ConnectCommandView>) -> Seq<OutgoingView> {
    match c {
        Some(c) => seq![OutgoingView::Connect(c)],
        None => Seq::empty(),
    }
}

/// The commands that handing playback to `device` sends, in order: the player
/// that stops playing is stopped first, then the other one is given the
/// device (for Connect) and loads what is currently playing.
pub open spec fn switch_device_for(s: PlaybackSnapshot, device: Device) -> Seq<OutgoingView> {
    match device {
        Device::Connect(d) => seq![
            OutgoingView::Local(Command::PlayerStop),
            OutgoingView::Connect(ConnectCommandView::SetDevice(d.id)),
        ] + to_connect(connect_command_for(s, PlaybackEvent::SourceChanged)),
        Device::Local => seq![OutgoingView::Connect(ConnectCommandView::PlayerStop)]
            + to_local(local_command_for(s, PlaybackEvent::SourceChanged)),
    }
}

/// The commands that the player notifier sends for an event.
pub open spec fn notifier_commands_for(s: PlaybackSnapshot, e: AppEvent) -> Seq<OutgoingView> {
    match e {
        AppEvent::LoginEvent(login) => to_local(login_command_for(login)),
        AppEvent::PlaybackEvent(PlaybackEvent::SwitchedDevice(d)) => switch_device_for(s, d),
        AppEvent::PlaybackEvent(playback) => match s.device {
            Device::Local => to_local(local_command_for(s, playback)),
            Device::Connect(_) => to_connect(connect_command_for(s, playback)),
        },
        AppEvent::SettingsEvent(SettingsEvent::PlayerSettingsChanged) => match s.device {
            Device::Local => seq![OutgoingView::Local(Command::ReloadSettings)],
            Device::Connect(_) => Seq::empty(),
        },
        _ => Seq::empty(),
    }
}

/// The event makes the local player look up the currently playing song in
/// the queue: a source change while playing locally, or a switch to the
/// local device.
pub open spec fn reads_current_song_locally(s: PlaybackSnapshot, e: AppEvent) -> bool {
    match e {
        AppEvent::PlaybackEvent(PlaybackEvent::SwitchedDevice(d)) => d is Local,
        AppEvent::PlaybackEvent(PlaybackEvent::SourceChanged) => s.device is Local,
        _ => false,
    }
}

/// The views of a list of commands.
pub open spec fn outgoing_views(v: Seq<Outgoing>) -> Seq<OutgoingView> {
    v.map_values(|o: Outgoing| o@)
}

fn push_local(out: &mut Vec<Outgoing>, c: Option<Command>)
    ensures
        outgoing_views(final(out)@) == outgoing_views(old(out)@) + to_local(c),
{
    let ghost before = out@;
    if let Some(c) = c {
        out.push(Outgoing::Local(c));
        assert(outgoing_views(out@) =~= outgoing_views(before) + to_local(Some(c)));
    } else {
        assert(outgoing_views(out@) =~= outgoing_views(before) + to_local(c));
    }
}

fn push_connect(out: &mut Vec<Outgoing>, c: Option<ConnectCommand>, Ghost(v): Ghost<Option<ConnectCommandView>>)
    requires
        match v {
            Some(v) => c matches Some(c) && c@ == v,
            None => c is None,
        },
    ensures
        outgoing_views(final(out)@) == outgoing_views(old(out)@) + to_connect(v),
{
    let ghost before = out@;
    if let Some(c) = c {
        out.push(Outgoing::Connect(c));
        assert(outgoing_views(out@) =~= outgoing_views(before) + to_connect(v));
    } else {
        assert(outgoing_views(out@) =~= outgoing_views(before) + to_connect(v));
    }
}

/// The commands that handing playback to `device` sends.
pub fn switch_device_commands(s: &PlaybackSnapshot, device: &Device) -> (commands: Vec<Outgoing>)
    requires
        *device is Local ==> current_song_in_queue(*s),
    ensures
        outgoing_views(commands@) == switch_device_for(*s, *device),
{
    let mut out: Vec<Outgoing> = Vec::new();
    assert(outgoing_views(out@) =~= Seq::empty());
    match device {
        Device::Connect(d) => {
            out.push(Outgoing::Local(Command::PlayerStop));
            out.push(Outgoing::Connect(ConnectCommand::SetDevice(d.id.clone())));
            assert(outgoing_views(out@) =~= seq![
                OutgoingView::Local(Command::PlayerStop),
                OutgoingView::Connect(ConnectCommandView::SetDevice(d.id)),
            ]);
            let load = connect_player_command(s, &PlaybackEvent::SourceChanged);
            push_connect(&mut out, load, Ghost(connect_command_for(*s, PlaybackEvent::SourceChanged)));
        },
        Device::Local => {
            out.push(Outgoing::Connect(ConnectCommand::PlayerStop));
            assert(outgoing_views(out@) =~= seq![OutgoingView::Connect(ConnectCommandView::PlayerStop)]);
            let load = local_player_command(s, &PlaybackEvent::SourceChanged);
            push_local(&mut out, load);
        },
    }
    out
}

/// The commands that the player notifier sends for an event, addressed to
/// the local player or to the Connect player.
pub fn player_notifier_commands(s: &PlaybackSnapshot, e: &AppEvent) -> (commands: Vec<Outgoing>)
    requires
        reads_current_song_locally(*s, *e) ==> current_song_in_queue(*s),
    ensures
        outgoing_views(commands@) == notifier_commands_for(*s, *e),
{
    let mut out: Vec<Outgoing> = Vec::new();
    assert(outgoing_views(out@) =~= Seq::empty());
    match e {
        AppEvent::LoginEvent(login) => {
            push_local(&mut out, login_command(login));
        },
        AppEvent::PlaybackEvent(PlaybackEvent::SwitchedDevice(d)) => {
            return switch_device_commands(s, d);
        },
        AppEvent::PlaybackEvent(playback) => match &s.device {
            Device::Local => {
                push_local(&mut out, local_player_command(s, playback));
            },
            Device::Connect(_) => {
                let c = connect_player_command(s, playback);
                push_connect(&mut out, c, Ghost(connect_command_for(*s, *playback)));
            },
        },
        AppEvent::SettingsEvent(SettingsEvent::PlayerSettingsChanged) => match &s.device {
            Device::Local => {
                push_local(&mut out, Some(Command::ReloadSettings));
            },
            Device::Connect(_) => {},
        },
        _ => {},
    }
    out
}

/// What the notifier dispatches to the application.
#[derive(Clone, Copy, Debug, PartialEq, Eq, Structural)]
pub enum LoginAction {
    SetLoginFailure,
}

/// When the local player can no longer take commands (its channel is closed),
/// the login is marked as failed.
pub fn undelivered_local_command_action() -> (action: LoginAction)
    ensures
        action == LoginAction::SetLoginFailure,
{
    LoginAction::SetLoginFailure
}

/// The command goes to the player of `device`.
pub open spec fn addressed_to(o: OutgoingView, device: Device) -> bool {
    match device {
        Device::Local => o is Local,
        Device::Connect(_) => o is Connect,
    }
}

/// Apart from login events and device switches, every command that the
/// notifier sends goes to the player of the device in use.
pub proof fn lemma_commands_follow_device(s: PlaybackSnapshot, e: AppEvent)
    requires
        !(e is LoginEvent),
        !(e matches AppEvent::PlaybackEvent(PlaybackEvent::SwitchedDevice(_))),
    ensures
        forall|i: int|
            0 <= i < notifier_commands_for(s, e).len() ==> addressed_to(
                #[trigger] notifier_commands_for(s, e)[i],
                s.device,
            ),
{
}

/// Login events drive the local player only, whatever device is in use.
pub proof fn lemma_login_goes_to_local_player(s: PlaybackSnapshot, e: LoginEvent)
    ensures
        notifier_commands_for(s, AppEvent::LoginEvent(e)).len() <= 1,
        forall|i: int|
            0 <= i < notifier_commands_for(s, AppEvent::LoginEvent(e)).len() ==> (
            #[trigger] notifier_commands_for(s, AppEvent::LoginEvent(e))[i]) is Local,
{
}

/// Handing playback to a device first stops the other player; every later
/// command goes to the player of the new device.
pub proof fn lemma_switch_stops_other_player_first(s: PlaybackSnapshot, device: Device)
    ensures
        switch_device_for(s, device).len() >= 1,
        switch_device_for(s, device)[0] == match device {
            Device::Local => OutgoingView::Connect(ConnectCommandView::PlayerStop),
            Device::Connect(_) => OutgoingView::Local(Command::PlayerStop),
        },
        forall|i: int|
            1 <= i < switch_device_for(s, device).len() ==> addressed_to(
                #[trigger] switch_device_for(s, device)[i],
                device,
            ),
{
}

/// Both players are sent the same position when a track is seeked.
pub proof fn lemma_both_players_seek_alike(s: PlaybackSnapshot, position: u32)
    ensures
        local_command_for(s, PlaybackEvent::TrackSeeked(position)) == Some(Command::PlayerSeek(position)),
        connect_command_for(s, PlaybackEvent::TrackSeeked(position)) matches Some(
            ConnectCommandView::PlayerSeek(p),
        ) && p == position,
{
}

/// Each login event sends the local player the one command that matches it,
/// whatever the playback state and device: restoring, starting and completing
/// a login, refreshing the token and logging out; other login events send
/// nothing.
pub proof fn lemma_login_event_commands(s: PlaybackSnapshot, e: LoginEvent)
    ensures
        notifier_commands_for(s, AppEvent::LoginEvent(e)) == match e {
            LoginEvent::LoginStarted(LoginStartedEvent::Restore) => seq![OutgoingView::Local(Command::Restore)],
            LoginEvent::LoginStarted(LoginStartedEvent::InitLogin) => seq![
                OutgoingView::Local(Command::InitLogin),
            ],
            LoginEvent::LoginStarted(LoginStartedEvent::CompleteLogin) => seq![
                OutgoingView::Local(Command::CompleteLogin),
            ],
            LoginEvent::FreshTokenRequested => seq![OutgoingView::Local(Command::RefreshToken)],
            LoginEvent::LogoutCompleted => seq![OutgoingView::Local(Command::Logout)],
            LoginEvent::LoginCompleted => Seq::<OutgoingView>::empty(),
            LoginEvent::LoginFailed => Seq::<OutgoingView>::empty(),
        },
{
}

/// The local player is told exactly what the event carries: the position of
/// a seek, the volume, a pause, resume or stop, and the decoded track of a
/// track change (to play at once) or of a preload; an id that does not
/// decode sends nothing.
pub proof fn lemma_local_commands_carry_event_values(
    s: PlaybackSnapshot,
    position: u32,
    volume: crate::playback::Volume,
    id: String,
)
    ensures
        local_command_for(s, PlaybackEvent::TrackSeeked(position)) == Some(Command::PlayerSeek(position)),
        local_command_for(s, PlaybackEvent::VolumeSet(volume)) == Some(Command::PlayerSetVolume(volume)),
        local_command_for(s, PlaybackEvent::PlaybackPaused) == Some(Command::PlayerPause),
        local_command_for(s, PlaybackEvent::PlaybackResumed) == Some(Command::PlayerResume),
        local_command_for(s, PlaybackEvent::PlaybackStopped) == Some(Command::PlayerStop),
        local_command_for(s, PlaybackEvent::TrackChanged(id)) == match spotify_id_value(id@) {
            Some(v) => Some(Command::PlayerLoad { track: TrackId { id: v }, resume: true }),
            None => None::<Command>,
        },
        local_command_for(s, PlaybackEvent::Preload(id)) == match spotify_id_value(id@) {
            Some(v) => Some(Command::PlayerPreload(TrackId { id: v })),
            None => None::<Command>,
        },
        local_command_for(s, PlaybackEvent::ShuffleChanged(true)) is None,
        local_command_for(s, PlaybackEvent::PlaylistChanged) is None,
{
}

/// When the source changes, the local player loads the song that plays, and
/// resumes playing exactly when playback was running.
pub proof fn lemma_local_reload_keeps_playing_state(s: PlaybackSnapshot)
    ensures
        local_command_for(s, PlaybackEvent::SourceChanged) == match currently_playing_of(s) {
            Some(p) => match spotify_id_value(p.playing_song()@) {
                Some(v) => Some(Command::PlayerLoad { track: TrackId { id: v }, resume: s.is_playing }),
                None => None::<Command>,
            },
            None => None::<Command>,
        },
{
}

/// The Connect player is told exactly what the event carries: the shuffle
/// flag, the repeat mode, the volume in percent, the seek position, a pause
/// or a resume; a stop sends it nothing.
pub proof fn lemma_connect_commands_carry_event_values(
    s: PlaybackSnapshot,
    shuffled: bool,
    mode: crate::playback::RepeatMode,
    volume: crate::playback::Volume,
    position: u32,
)
    ensures
        connect_command_for(s, PlaybackEvent::ShuffleChanged(shuffled)) matches Some(
            ConnectCommandView::PlayerShuffle(b),
        ) && b == shuffled,
        connect_command_for(s, PlaybackEvent::RepeatModeChanged(mode)) matches Some(
            ConnectCommandView::PlayerRepeat(m),
        ) && m == mode,
        connect_command_for(s, PlaybackEvent::VolumeSet(volume)) matches Some(
            ConnectCommandView::PlayerSetVolume(p),
        ) && p == volume.percent,
        connect_command_for(s, PlaybackEvent::TrackSeeked(position)) matches Some(
            ConnectCommandView::PlayerSeek(p),
        ) && p == position,
        connect_command_for(s, PlaybackEvent::PlaybackPaused) matches Some(ConnectCommandView::PlayerPause),
        connect_command_for(s, PlaybackEvent::PlaybackResumed) matches Some(ConnectCommandView::PlayerResume),
        connect_command_for(s, PlaybackEvent::PlaybackStopped) is None,
{
}

/// The Connect player loads the song that plays: in its source when the
/// source has a Spotify URI, else within the plain list of queued songs.
pub proof fn lemma_connect_load_follows_current_song(s: PlaybackSnapshot, id: String)
    ensures
        connect_command_for(s, PlaybackEvent::TrackChanged(id)) == connect_command_for(
            s,
            PlaybackEvent::SourceChanged,
        ),
        connect_command_for(s, PlaybackEvent::SourceChanged) is Some <==> (s.current_song_id is Some
            && s.current_song_index is Some),
        connect_command_for(s, PlaybackEvent::SourceChanged) matches Some(
            ConnectCommandView::PlayerLoadInContext { source, offset, song },
        ) ==> (s.source == Some(source) && source.spotify_uri_exists() && s.current_song_index == Some(offset)
            && s.current_song_id == Some(song)),
        connect_command_for(s, PlaybackEvent::SourceChanged) matches Some(
            ConnectCommandView::PlayerLoad { songs, offset },
        ) ==> (songs == s.song_ids@ && s.current_song_index == Some(offset) && !(s.source matches Some(
            src,
        ) && src.spotify_uri_exists())),
{
}

/// Handing playback to this machine stops the Connect player, then sends the
/// local player the same command a source change would: a load of the song
/// that plays, resuming exactly when playback was running.
pub proof fn lemma_switch_to_local_reloads(s: PlaybackSnapshot)
    ensures
        switch_device_for(s, Device::Local) == seq![OutgoingView::Connect(ConnectCommandView::PlayerStop)]
            + to_local(local_command_for(s, PlaybackEvent::SourceChanged)),
        forall|i: int|
            1 <= i < switch_device_for(s, Device::Local).len() ==> (#[trigger] switch_device_for(
                s,
                Device::Local,
            )[i] matches OutgoingView::Local(Command::PlayerLoad { resume, .. }) && resume == s.is_playing),
        switch_device_for(s, Device::Local).len() <= 2,
{
    lemma_local_reload_keeps_playing_state(s);
}

/// Handing playback to a Connect device stops the local player, selects the
/// device by its id, then sends the Connect player the same command a source
/// change would.
pub proof fn lemma_switch_to_connect_reloads(s: PlaybackSnapshot, d: crate::playback::ConnectDevice)
    ensures
        switch_device_for(s, Device::Connect(d)) == seq![
            OutgoingView::Local(Command::PlayerStop),
            OutgoingView::Connect(ConnectCommandView::SetDevice(d.id)),
        ] + to_connect(connect_command_for(s, PlaybackEvent::SourceChanged)),
{
}

/// For a playback event other than a device switch, the notifier sends what
/// the player of the device in use is to get, and nothing to the other.
pub proof fn lemma_playback_events_go_to_device_player(s: PlaybackSnapshot, e: PlaybackEvent)
    requires
        !(e is SwitchedDevice),
    ensures
        s.device is Local ==> notifier_commands_for(s, AppEvent::PlaybackEvent(e)) == to_local(
            local_command_for(s, e),
        ),
        s.device is Connect ==> notifier_commands_for(s, AppEvent::PlaybackEvent(e)) == to_connect(
            connect_command_for(s, e),
        ),
{
}

} // verus!
