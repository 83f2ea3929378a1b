use spot::actions::{
    activation, registered_shortcuts, shortcut_effect, start_action, Activation, AppAction,
    BrowserAction, PlaybackAction, ScreenName, ShortcutEffect,
};
use spot::components::{
    artist_avatar_request, artwork_loaded_actions, details_update, editing_change, expose_widgets, header_bar_style,
    loads_more_at_edge, now_playing_loads_more, playing_indicator, playlist_details_actions,
    playlist_details_setup, saved_tracks_load_initial, track_count_text, CustomWidget,
    DetailsAction, EdgePosition, HeaderBarStyle, ImageFormat, PlaylistDetailsSetup,
    PlaylistDetailsState, PlaylistInfo,
};
use spot::credits::{credit_lines, trim_trailing_line_breaks};
use spot::playback::{AppEvent, BrowserEvent, LoginEvent, PlaybackEvent, SelectionEvent};
use spot::text::{decimal_text, same_text};

#[test]
fn widgets_to_expose() {
    let widgets = expose_widgets();
    assert_eq!(widgets, vec![CustomWidget::ScrollingHeader]);
    assert_eq!(widgets[0].registered_name(), "ScrollingHeaderWidget");
}

#[test]
fn decimal_rendering() {
    assert_eq!(decimal_text(0), "0");
    assert_eq!(decimal_text(7), "7");
    assert_eq!(decimal_text(10), "10");
    assert_eq!(decimal_text(1234567890), "1234567890");
    assert_eq!(decimal_text(usize::MAX), usize::MAX.to_string());
    assert_eq!(track_count_text(12), "12");
}

#[test]
fn text_comparison() {
    assert!(same_text("abc", "abc"));
    assert!(!same_text("abc", "abd"));
    assert!(!same_text("abc", "ab"));
    assert!(same_text("", ""));
}

#[test]
fn credits_parsing() {
    assert_eq!(credit_lines("Ann\nBob\n\n"), vec!["Ann".to_string(), "Bob".to_string()]);
    assert_eq!(credit_lines("Ann"), vec!["Ann".to_string()]);
    assert_eq!(credit_lines("Ann\n\nBob"), vec!["Ann".to_string(), String::new(), "Bob".to_string()]);
    assert_eq!(credit_lines("\n\n"), vec![String::new()]);
    assert_eq!(credit_lines(""), vec![String::new()]);
    assert_eq!(trim_trailing_line_breaks("Ann <a@b.c>\n\n"), "Ann <a@b.c>");
    assert_eq!(trim_trailing_line_breaks("\nx\n"), "\nx");
    let text = "Ann\nBéa\n";
    assert_eq!(
        credit_lines(text),
        text.trim_end_matches('\n').split('\n').map(|s| s.to_string()).collect::<Vec<_>>()
    );
}

#[test]
fn bottom_edge_loads_more() {
    assert!(loads_more_at_edge(EdgePosition::Bottom));
    assert!(!loads_more_at_edge(EdgePosition::Top));
    assert!(!loads_more_at_edge(EdgePosition::Left));
    assert!(!loads_more_at_edge(EdgePosition::Right));
}

#[test]
fn list_reactions() {
    assert!(now_playing_loads_more(&AppEvent::PlaybackEvent(PlaybackEvent::TrackChanged("x".to_string()))));
    assert!(!now_playing_loads_more(&AppEvent::PlaybackEvent(PlaybackEvent::SourceChanged)));
    assert!(!now_playing_loads_more(&AppEvent::Started));
    assert!(saved_tracks_load_initial(&AppEvent::Started));
    assert!(saved_tracks_load_initial(&AppEvent::LoginEvent(LoginEvent::LoginCompleted)));
    assert!(!saved_tracks_load_initial(&AppEvent::LoginEvent(LoginEvent::LogoutCompleted)));
}

#[test]
fn header_style() {
    assert_eq!(header_bar_style(true), HeaderBarStyle { title_visible: true, flat: true });
    assert_eq!(header_bar_style(false), HeaderBarStyle { title_visible: true, flat: false });
}

#[test]
fn artist_avatar() {
    let r = artist_avatar_request(&Some("http://img".to_string())).unwrap();
    assert_eq!(r.url, "http://img");
    assert_eq!(r.format, ImageFormat::Jpeg);
    assert_eq!(r.format.extension(), "jpg");
    assert_eq!((r.width, r.height), (200, 200));
    assert!(artist_avatar_request(&None).is_none());
}

#[test]
fn playing_and_editing() {
    assert!(playing_indicator(true, true, true));
    assert!(!playing_indicator(true, true, false));
    assert!(!playing_indicator(false, true, true));
    assert!(!playing_indicator(true, false, true));
    assert_eq!(editing_change(true, true), Some(true));
    assert_eq!(editing_change(true, false), Some(false));
    assert_eq!(editing_change(false, true), None);
    assert_eq!(playlist_details_setup(false, true), PlaylistDetailsSetup { load_info: true, editable: true });
    assert_eq!(playlist_details_setup(true, false), PlaylistDetailsSetup { load_info: false, editable: false });
}

fn info(art: Option<&str>) -> PlaylistInfo {
    PlaylistInfo {
        title: "Mix".to_string(),
        owner_name: "Ann".to_string(),
        art_url: art.map(|a| a.to_string()),
    }
}

#[test]
fn details_with_and_without_artwork() {
    let with_art = details_update(&Some(info(Some("http://art"))));
    assert_eq!(with_art.len(), 2);
    assert!(matches!(&with_art[0], DetailsAction::SetInfo { title, owner } if title == "Mix" && owner == "Ann"));
    assert!(matches!(&with_art[1], DetailsAction::LoadArtwork(r) if r.url == "http://art" && r.width == 320 && r.height == 320));
    let without = details_update(&Some(info(None)));
    assert!(matches!(without.as_slice(), [DetailsAction::SetInfo { .. }, DetailsAction::SetLoaded]));
    assert!(details_update(&None).is_empty());
}

#[test]
fn playlist_page_reactions() {
    let st = PlaylistDetailsState {
        id: "pl".to_string(),
        info: Some(info(None)),
        editable: false,
        playlist_is_playing: true,
        is_playing: true,
    };
    let loaded = playlist_details_actions(
        &st,
        &AppEvent::BrowserEvent(BrowserEvent::PlaylistDetailsLoaded("pl".to_string())),
    );
    assert!(matches!(
        loaded.as_slice(),
        [DetailsAction::SetInfo { .. }, DetailsAction::SetLoaded, DetailsAction::SetPlaying(true)]
    ));
    let other = playlist_details_actions(
        &st,
        &AppEvent::BrowserEvent(BrowserEvent::PlaylistDetailsLoaded("other".to_string())),
    );
    assert!(other.is_empty());
    let paused = playlist_details_actions(&st, &AppEvent::PlaybackEvent(PlaybackEvent::PlaybackPaused));
    assert!(matches!(paused.as_slice(), [DetailsAction::SetPlaying(false)]));
    let resumed = playlist_details_actions(&st, &AppEvent::PlaybackEvent(PlaybackEvent::PlaybackResumed));
    assert!(matches!(resumed.as_slice(), [DetailsAction::SetPlaying(true)]));
    let editing = playlist_details_actions(
        &st,
        &AppEvent::SelectionEvent(SelectionEvent::SelectionModeChanged(true)),
    );
    assert!(editing.is_empty());
    let editable = PlaylistDetailsState { editable: true, ..st };
    let editing = playlist_details_actions(
        &editable,
        &AppEvent::SelectionEvent(SelectionEvent::SelectionModeChanged(true)),
    );
    assert!(matches!(editing.as_slice(), [DetailsAction::SetEditing(true)]));
}

#[test]
fn shortcuts() {
    let names: Vec<&str> = registered_shortcuts().iter().map(|s| s.name).collect();
    assert_eq!(
        names,
        vec!["quit", "toggle_playback", "player_prev", "player_next", "nav_pop", "search", "open_playlist"]
    );
    assert!(registered_shortcuts()[6].takes_text);
    assert!(matches!(shortcut_effect("quit", None), ShortcutEffect::Quit));
    assert!(matches!(
        shortcut_effect("toggle_playback", None),
        ShortcutEffect::Dispatch(AppAction::PlaybackAction(PlaybackAction::TogglePlay))
    ));
    assert!(matches!(
        shortcut_effect("player_prev", None),
        ShortcutEffect::Dispatch(AppAction::PlaybackAction(PlaybackAction::Previous))
    ));
    assert!(matches!(
        shortcut_effect("player_next", None),
        ShortcutEffect::Dispatch(AppAction::PlaybackAction(PlaybackAction::Next))
    ));
    assert!(matches!(
        shortcut_effect("nav_pop", None),
        ShortcutEffect::Dispatch(AppAction::BrowserAction(BrowserAction::NavigationPop))
    ));
    assert!(matches!(
        shortcut_effect("search", None),
        ShortcutEffect::Dispatch(AppAction::BrowserAction(BrowserAction::NavigationPush(ScreenName::Search)))
    ));
    assert!(matches!(
        shortcut_effect("open_playlist", Some("37i9dQ")),
        ShortcutEffect::Dispatch(AppAction::ViewPlaylist(ref id)) if id == "37i9dQ"
    ));
    assert!(matches!(shortcut_effect("open_playlist", None), ShortcutEffect::Ignore));
    assert!(matches!(shortcut_effect("unknown", None), ShortcutEffect::Ignore));
}

#[test]
fn application_activation() {
    assert_eq!(activation(true), Activation::PresentExisting);
    assert_eq!(activation(false), Activation::ShowWindowAndStart);
    assert!(matches!(start_action(), AppAction::Start));
}

#[test]
fn artwork_after_loading() {
    assert!(matches!(
        artwork_loaded_actions(true, true).as_slice(),
        [DetailsAction::SetArtwork, DetailsAction::SetLoaded]
    ));
    assert!(artwork_loaded_actions(true, false).is_empty());
    assert!(artwork_loaded_actions(false, true).is_empty());
    assert!(artwork_loaded_actions(false, false).is_empty());
}
