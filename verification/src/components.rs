use vstd::prelude::*;

use crate::playback::{AppEvent, BrowserEvent, LoginEvent, PlaybackEvent, SelectionEvent};
use crate::text::{decimal_digits, decimal_text, same_text};

verus! {

/// Widgets of the application that the interface files refer to by name.
#[derive(Clone, Copy, Debug, PartialEq, Eq, Structural)]
pub enum CustomWidget {
    ScrollingHeader,
}

impl CustomWidget {
    /// The name under which the widget type is registered.
    pub fn registered_name(&self) -> (name: &'static str)
        ensures
            name@ == "ScrollingHeaderWidget"@,
    {
        match self {
            CustomWidget::ScrollingHeader => "ScrollingHeaderWidget",
        }
    }
}

/// The widget types to register before the interface files are loaded.
pub fn expose_widgets() -> (widgets: Vec<CustomWidget>)
    ensures
        widgets@ == seq![CustomWidget::ScrollingHeader],
{
    let mut widgets = Vec::new();
    widgets.push(CustomWidget::ScrollingHeader);
    widgets
}

/// An edge of a scrolled window.
#[derive(Clone, Copy, Debug, PartialEq, Eq, Structural)]
pub enum EdgePosition {
    Left,
    Right,
    Top,
    Bottom,
}

/// Reaching the bottom edge of a song list asks for more songs.
pub fn loads_more_at_edge(edge: EdgePosition) -> (load: bool)
    ensures
        load == (edge == EdgePosition::Bottom),
{
    match edge {
        EdgePosition::Bottom => true,
        _ => false,
    }
}

/// The "now playing" list loads more songs when the track changes.
pub open spec fn now_playing_loads_more_on(e: AppEvent) -> bool {
    e matches AppEvent::PlaybackEvent(PlaybackEvent::TrackChanged(_))
}

/// Whether the "now playing" list loads more songs for an event.
pub fn now_playing_loads_more(e: &AppEvent) -> (load: bool)
    ensures
        load == now_playing_loads_more_on(*e),
{
    match e {
        AppEvent::PlaybackEvent(PlaybackEvent::TrackChanged(_)) => true,
        _ => false,
    }
}

/// The saved tracks are loaded from the start when the application starts
/// and when a login completes.
pub open spec fn saved_tracks_reload_on(e: AppEvent) -> bool {
    e is Started || e == AppEvent::LoginEvent(LoginEvent::LoginCompleted)
}

/// Whether the saved tracks are loaded from the start for an event.
pub fn saved_tracks_load_initial(e: &AppEvent) -> (load: bool)
    ensures
        load == saved_tracks_reload_on(*e),
{
    match e {
        AppEvent::Started => true,
        AppEvent::LoginEvent(LoginEvent::LoginCompleted) => true,
        _ => false,
    }
}

/// How the header bar of the playlist page looks.
#[derive(Clone, Copy, Debug, PartialEq, Eq, Structural)]
pub struct HeaderBarStyle {
    pub title_visible: bool,
    pub flat: bool,
}

/// The header bar always shows its title, and is flat while the large
/// playlist header is visible.
pub fn header_bar_style(header_visible: bool) -> (style: HeaderBarStyle)
    ensures
        style == (HeaderBarStyle { title_visible: true, flat: header_visible }),
{
    HeaderBarStyle { title_visible: true, flat: header_visible }
}

/// The format an image is stored in.
#[derive(Clone, Copy, Debug, PartialEq, Eq, Structural)]
pub enum ImageFormat {
    Jpeg,
}

impl ImageFormat {
    /// The file extension that the image loader caches the format under.
    pub fn extension(&self) -> (ext: &'static str)
        ensures
            ext@ == "jpg"@,
    {
        match self {
            ImageFormat::Jpeg => "jpg",
        }
    }
}

/// A request to load a remote image, scaled to `width` by `height`.
#[derive(Debug)]
pub struct ImageRequest {
    pub url: String,
    pub format: ImageFormat,
    pub width: u32,
    pub height: u32,
}

/// The avatar of an artist is loaded as a 200x200 JPEG when the artist has an image.
pub fn artist_avatar_request(image: &Option<String>) -> (request: Option<ImageRequest>)
    ensures
        match *image {
            Some(url) => request == Some(
                ImageRequest { url, format: ImageFormat::Jpeg, width: 200, height: 200 },
            ),
            None => request is None,
        },
{
    match image {
        Some(url) => Some(ImageRequest { url: url.clone(), format: ImageFormat::Jpeg, width: 200, height: 200 }),
        None => None,
    }
}

/// The text for the number of tracks in the release details.
pub fn track_count_text(track_count: usize) -> (text: String)
    ensures
        text@ == decimal_digits(track_count as nat),
{
    decimal_text(track_count)
}

/// What the playlist page knows of its playlist.
#[derive(Debug)]
pub struct PlaylistInfo {
    pub title: String,
    pub owner_name: String,
    pub art_url: Option<String>,
}

/// The state that the playlist page reads when it reacts to an event.
#[derive(Debug)]
pub struct PlaylistDetailsState {
    pub id: String,
    pub info: Option<PlaylistInfo>,
    pub editable: bool,
    /// The playlist is the source of what plays.
    pub playlist_is_playing: bool,
    /// Playback is running.
    pub is_playing: bool,
}

/// A change to make to the playlist page.
#[derive(Debug)]
pub enum DetailsAction {
    SetInfo { title: String, owner: String },
    LoadArtwork(ImageRequest),
    /// Show the image that the artwork load returned.
    SetArtwork,
    SetLoaded,
    SetPlaying(bool),
    SetEditing(bool),
}

/// The page shows the playlist as playing only when the playlist is the
/// source of what plays and playback runs.
pub open spec fn playing_shown(playlist_is_playing: bool, model_is_playing: bool, is_playing: bool) -> bool {
    playlist_is_playing && model_is_playing && is_playing
}

/// Whether the page shows the playlist as playing.
pub fn playing_indicator(playlist_is_playing: bool, model_is_playing: bool, is_playing: bool) -> (shown: bool)
    ensures
        shown == playing_shown(playlist_is_playing, model_is_playing, is_playing),
{
    if !playlist_is_playing || !model_is_playing {
        return false;
    }
    is_playing
}

/// Editing mode reaches the page only when the playlist can be edited.
pub fn editing_change(editable: bool, editing: bool) -> (change: Option<bool>)
    ensures
        change == (if editable { Some(editing) } else { None::<bool> }),
{
    if !editable {
        return None;
    }
    Some(editing)
}

/// What the playlist page does first: load the playlist information when it
/// is missing, and show the edit button when the playlist can be edited.
#[derive(Clone, Copy, Debug, PartialEq, Eq, Structural)]
pub struct PlaylistDetailsSetup {
    pub load_info: bool,
    pub editable: bool,
}

/// The first steps of the playlist page.
pub fn playlist_details_setup(info_known: bool, editable: bool) -> (setup: PlaylistDetailsSetup)
    ensures
        setup == (PlaylistDetailsSetup { load_info: !info_known, editable }),
{
    PlaylistDetailsSetup { load_info: !info_known, editable }
}

/// What the playlist page changes once its playlist information is known:
/// the title and owner, then either the artwork to load (320x320) or, with
/// no artwork, the page is marked as loaded at once.
pub open spec fn details_update_for(info: Option<PlaylistInfo>) -> Seq<DetailsAction> {
    match info {
        Some(i) => seq![DetailsAction::SetInfo { title: i.title, owner: i.owner_name }] + match i.art_url {
            Some(url) => seq![
                DetailsAction::LoadArtwork(
                    ImageRequest { url, format: ImageFormat::Jpeg, width: 320, height: 320 },
                ),
            ],
            None => seq![DetailsAction::SetLoaded],
        },
        None => Seq::empty(),
    }
}

/// The changes to the playlist page once its playlist information is known.
pub fn details_update(info: &Option<PlaylistInfo>) -> (actions: Vec<DetailsAction>)
    ensures
        actions@ == details_update_for(*info),
{
    let mut actions: Vec<DetailsAction> = Vec::new();
    if let Some(i) = info {
        actions.push(DetailsAction::SetInfo { title: i.title.clone(), owner: i.owner_name.clone() });
        match &i.art_url {
            Some(url) => {
                actions.push(
                    DetailsAction::LoadArtwork(
                        ImageRequest { url: url.clone(), format: ImageFormat::Jpeg, width: 320, height: 320 },
                    ),
                );
            },
            None => {
                actions.push(DetailsAction::SetLoaded);
            },
        }
    }
    assert(actions@ =~= details_update_for(*info));
    actions
}

/// What the playlist page does once an artwork load ends: when the page is
/// still shown and the image loaded, it shows the artwork and then marks
/// itself loaded; otherwise it does nothing.
pub open spec fn artwork_loaded_for(page_alive: bool, image_loaded: bool) -> Seq<DetailsAction> {
    if page_alive && image_loaded {
        seq![DetailsAction::SetArtwork, DetailsAction::SetLoaded]
    } else {
        Seq::empty()
    }
}

/// The changes to the playlist page once an artwork load ends.
pub fn artwork_loaded_actions(page_alive: bool, image_loaded: bool) -> (actions: Vec<DetailsAction>)
    ensures
        actions@ == artwork_loaded_for(page_alive, image_loaded),
{
    let mut actions: Vec<DetailsAction> = Vec::new();
    if page_alive && image_loaded {
        actions.push(DetailsAction::SetArtwork);
        actions.push(DetailsAction::SetLoaded);
    }
    assert(actions@ =~= artwork_loaded_for(page_alive, image_loaded));
    actions
}

/// How the playlist page reacts to an event.
pub open spec fn playlist_details_actions_for(st: PlaylistDetailsState, e: AppEvent) -> Seq<DetailsAction> {
    match e {
        AppEvent::BrowserEvent(BrowserEvent::PlaylistDetailsLoaded(id)) => if id@ == st.id@ {
            details_update_for(st.info) + seq![
                DetailsAction::SetPlaying(playing_shown(st.playlist_is_playing, st.is_playing, true)),
            ]
        } else {
            Seq::empty()
        },
        AppEvent::SelectionEvent(SelectionEvent::SelectionModeChanged(editing)) => if st.editable {
            seq![DetailsAction::SetEditing(editing)]
        } else {
            Seq::empty()
        },
        AppEvent::PlaybackEvent(PlaybackEvent::PlaybackPaused) => seq![
            DetailsAction::SetPlaying(playing_shown(st.playlist_is_playing, st.is_playing, false)),
        ],
        AppEvent::PlaybackEvent(PlaybackEvent::PlaybackResumed) => seq![
            DetailsAction::SetPlaying(playing_shown(st.playlist_is_playing, st.is_playing, true)),
        ],
        _ => Seq::empty(),
    }
}

/// The changes to the playlist page for an event.
pub fn playlist_details_actions(st: &PlaylistDetailsState, e: &AppEvent) -> (actions: Vec<DetailsAction>)
    ensures
        actions@ == playlist_details_actions_for(*st, *e),
{
    let mut actions: Vec<DetailsAction> = Vec::new();
    match e {
        AppEvent::BrowserEvent(BrowserEvent::PlaylistDetailsLoaded(id)) => {
            if same_text(id.as_str(), st.id.as_str()) {
                actions = details_update(&st.info);
                actions.push(
                    DetailsAction::SetPlaying(playing_indicator(st.playlist_is_playing, st.is_playing, true)),
                );
                assert(actions@ =~= playlist_details_actions_for(*st, *e));
            }
        },
        AppEvent::SelectionEvent(SelectionEvent::SelectionModeChanged(editing)) => {
            if let Some(editing) = editing_change(st.editable, *editing) {
                actions.push(DetailsAction::SetEditing(editing));
            }
        },
        AppEvent::PlaybackEvent(PlaybackEvent::PlaybackPaused) => {
            actions.push(
                DetailsAction::SetPlaying(playing_indicator(st.playlist_is_playing, st.is_playing, false)),
            );
        },
        AppEvent::PlaybackEvent(PlaybackEvent::PlaybackResumed) => {
            actions.push(
                DetailsAction::SetPlaying(playing_indicator(st.playlist_is_playing, st.is_playing, true)),
            );
        },
        _ => {},
    }
    assert(actions@ =~= playlist_details_actions_for(*st, *e));
    actions
}

/// A paused playback never shows the playlist as playing.
pub proof fn lemma_pause_clears_playing(st: PlaylistDetailsState)
    ensures
        playlist_details_actions_for(st, AppEvent::PlaybackEvent(PlaybackEvent::PlaybackPaused))
            == seq![DetailsAction::SetPlaying(false)],
{
}

/// Entering or leaving editing mode reaches an editable playlist page with
/// the event's own flag, and never reaches a page that cannot be edited.
pub proof fn lemma_editing_follows_selection_mode(st: PlaylistDetailsState, editing: bool)
    ensures
        st.editable ==> playlist_details_actions_for(
            st,
            AppEvent::SelectionEvent(SelectionEvent::SelectionModeChanged(editing)),
        ) == seq![DetailsAction::SetEditing(editing)],
        !st.editable ==> playlist_details_actions_for(
            st,
            AppEvent::SelectionEvent(SelectionEvent::SelectionModeChanged(editing)),
        ).len() == 0,
{
}

/// The playing indicator: a pause always clears it; a resume sets it exactly
/// when this playlist is what plays and playback runs.
pub proof fn lemma_playing_indicator_follows_playback(st: PlaylistDetailsState)
    ensures
        playlist_details_actions_for(st, AppEvent::PlaybackEvent(PlaybackEvent::PlaybackPaused)) == seq![
            DetailsAction::SetPlaying(false),
        ],
        playlist_details_actions_for(st, AppEvent::PlaybackEvent(PlaybackEvent::PlaybackResumed)) == seq![
            DetailsAction::SetPlaying(st.playlist_is_playing && st.is_playing),
        ],
{
}

/// When the details of this page's playlist arrive, the page shows the
/// title and owner first, then loads the 320x320 artwork or, without one,
/// is marked loaded at once, and last updates its playing indicator; the
/// details of another playlist change nothing.
pub proof fn lemma_details_loaded(st: PlaylistDetailsState, id: String)
    ensures
        id@ != st.id@ ==> playlist_details_actions_for(
            st,
            AppEvent::BrowserEvent(BrowserEvent::PlaylistDetailsLoaded(id)),
        ).len() == 0,
        id@ == st.id@ ==> (st.info matches Some(i) ==> playlist_details_actions_for(
            st,
            AppEvent::BrowserEvent(BrowserEvent::PlaylistDetailsLoaded(id)),
        ) == seq![
            DetailsAction::SetInfo { title: i.title, owner: i.owner_name },
            match i.art_url {
                Some(url) => DetailsAction::LoadArtwork(
                    ImageRequest { url, format: ImageFormat::Jpeg, width: 320, height: 320 },
                ),
                None => DetailsAction::SetLoaded,
            },
            DetailsAction::SetPlaying(st.playlist_is_playing && st.is_playing),
        ]),
        (id@ == st.id@ && st.info is None) ==> playlist_details_actions_for(
            st,
            AppEvent::BrowserEvent(BrowserEvent::PlaylistDetailsLoaded(id)),
        ) == seq![DetailsAction::SetPlaying(st.playlist_is_playing && st.is_playing)],
{
    let e = AppEvent::BrowserEvent(BrowserEvent::PlaylistDetailsLoaded(id));
    if id@ == st.id@ {
        if let Some(i) = st.info {
            assert(playlist_details_actions_for(st, e) =~= seq![
                DetailsAction::SetInfo { title: i.title, owner: i.owner_name },
                match i.art_url {
                    Some(url) => DetailsAction::LoadArtwork(
                        ImageRequest { url, format: ImageFormat::Jpeg, width: 320, height: 320 },
                    ),
                    None => DetailsAction::SetLoaded,
                },
                DetailsAction::SetPlaying(st.playlist_is_playing && st.is_playing),
            ]);
        } else {
            assert(playlist_details_actions_for(st, e) =~= seq![
                DetailsAction::SetPlaying(st.playlist_is_playing && st.is_playing),
            ]);
        }
    }
}

/// After an artwork load the page is marked loaded exactly when it shows
/// the artwork, and the artwork comes first.
pub proof fn lemma_artwork_then_loaded(page_alive: bool, image_loaded: bool)
    ensures
        (page_alive && image_loaded) ==> artwork_loaded_for(page_alive, image_loaded) == seq![
            DetailsAction::SetArtwork,
            DetailsAction::SetLoaded,
        ],
        !(page_alive && image_loaded) ==> artwork_loaded_for(page_alive, image_loaded).len() == 0,
{
}

} // verus!
