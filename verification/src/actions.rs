use vstd::prelude::*;

use crate::text::same_text;

verus! {

/// Screens of the browser that can be opened directly.
#[derive(Clone, Copy, Debug, PartialEq, Eq, Structural)]
pub enum ScreenName {
    Search,
}

/// Actions on the playback.
#[derive(Clone, Copy, Debug, PartialEq, Eq, Structural)]
pub enum PlaybackAction {
    TogglePlay,
    Previous,
    Next,
}

/// Actions on the browser's navigation.
#[derive(Clone, Copy, Debug, PartialEq, Eq, Structural)]
pub enum BrowserAction {
    NavigationPop,
    NavigationPush(ScreenName),
}

/// Actions that the application-wide shortcuts dispatch.
#[derive(Debug)]
pub enum AppAction {
    Start,
    PlaybackAction(PlaybackAction),
    BrowserAction(BrowserAction),
    ViewPlaylist(String),
}

/// What an application action (a keyboard shortcut or a desktop action)
/// does when activated.
#[derive(Debug)]
pub enum ShortcutEffect {
    /// Close the active window, then quit.
    Quit,
    Dispatch(AppAction),
    /// Nothing happens.
    Ignore,
}

/// An application action to register: its name, and whether it takes a
/// text parameter.
#[derive(Clone, Copy, Debug)]
pub struct Shortcut {
    pub name: &'static str,
    pub takes_text: bool,
}

/// The names of the application actions, in the order they are registered.
pub open spec fn shortcut_names() -> Seq<Seq<char>> {
    seq![
        "quit"@,
        "toggle_playback"@,
        "player_prev"@,
        "player_next"@,
        "nav_pop"@,
        "search"@,
        "open_playlist"@,
    ]
}

/// The application actions to register; only "open_playlist" takes a text
/// parameter (the playlist id).
pub fn registered_shortcuts() -> (shortcuts: Vec<Shortcut>)
    ensures
        shortcuts@.len() == shortcut_names().len(),
        forall|i: int|
            0 <= i < shortcuts@.len() ==> (#[trigger] shortcuts@[i]).name@ == shortcut_names()[i]
                && shortcuts@[i].takes_text == (i == 6),
{
    let mut shortcuts: Vec<Shortcut> = Vec::new();
    shortcuts.push(Shortcut { name: "quit", takes_text: false });
    shortcuts.push(Shortcut { name: "toggle_playback", takes_text: false });
    shortcuts.push(Shortcut { name: "player_prev", takes_text: false });
    shortcuts.push(Shortcut { name: "player_next", takes_text: false });
    shortcuts.push(Shortcut { name: "nav_pop", takes_text: false });
    shortcuts.push(Shortcut { name: "search", takes_text: false });
    shortcuts.push(Shortcut { name: "open_playlist", takes_text: true });
    shortcuts
}

/// What activating the application action `name` does, given its parameter.
pub open spec fn shortcut_effect_of(name: Seq<char>, parameter: Option<Seq<char>>) -> ShortcutEffectView {
    if name == "quit"@ {
        ShortcutEffectView::Quit
    } else if name == "toggle_playback"@ {
        ShortcutEffectView::Dispatch(AppActionView::PlaybackAction(PlaybackAction::TogglePlay))
    } else if name == "player_prev"@ {
        ShortcutEffectView::Dispatch(AppActionView::PlaybackAction(PlaybackAction::Previous))
    } else if name == "player_next"@ {
        ShortcutEffectView::Dispatch(AppActionView::PlaybackAction(PlaybackAction::Next))
    } else if name == "nav_pop"@ {
        ShortcutEffectView::Dispatch(AppActionView::BrowserAction(BrowserAction::NavigationPop))
    } else if name == "search"@ {
        ShortcutEffectView::Dispatch(
            AppActionView::BrowserAction(BrowserAction::NavigationPush(ScreenName::Search)),
        )
    } else if name == "open_playlist"@ {
        match parameter {
            Some(id) => ShortcutEffectView::Dispatch(AppActionView::ViewPlaylist(id)),
            None => ShortcutEffectView::Ignore,
        }
    } else {
        ShortcutEffectView::Ignore
    }
}

/// An application action, with its text taken as characters.
pub enum AppActionView {
    Start,
    PlaybackAction(PlaybackAction),
    BrowserAction(BrowserAction),
    ViewPlaylist(Seq<char>),
}

impl View for AppAction {
    type V = AppActionView;

    open spec fn view(&self) -> AppActionView {
        match self {
            AppAction::Start => AppActionView::Start,
            AppAction::PlaybackAction(a) => AppActionView::PlaybackAction(*a),
            AppAction::BrowserAction(a) => AppActionView::BrowserAction(*a),
            AppAction::ViewPlaylist(id) => AppActionView::ViewPlaylist(id@),
        }
    }
}

/// The effect of an application action, with its text taken as characters.
pub enum ShortcutEffectView {
    Quit,
    Dispatch(AppActionView),
    Ignore,
}

impl View for ShortcutEffect {
    type V = ShortcutEffectView;

    open spec fn view(&self) -> ShortcutEffectView {
        match self {
            ShortcutEffect::Quit => ShortcutEffectView::Quit,
            ShortcutEffect::Dispatch(a) => ShortcutEffectView::Dispatch(a@),
            ShortcutEffect::Ignore => ShortcutEffectView::Ignore,
        }
    }
}

/// The optional parameter of an action, taken as characters.
pub open spec fn parameter_view(parameter: Option<&str>) -> Option<Seq<char>> {
    match parameter {
        Some(p) => Some(p@),
        None => None,
    }
}

/// What activating the application action `name` does.
pub fn shortcut_effect(name: &str, parameter: Option<&str>) -> (effect: ShortcutEffect)
    ensures
        effect@ == shortcut_effect_of(name@, parameter_view(parameter)),
{
    if same_text(name, "quit") {
        ShortcutEffect::Quit
    } else if same_text(name, "toggle_playback") {
        ShortcutEffect::Dispatch(AppAction::PlaybackAction(PlaybackAction::TogglePlay))
    } else if same_text(name, "player_prev") {
        ShortcutEffect::Dispatch(AppAction::PlaybackAction(PlaybackAction::Previous))
    } else if same_text(name, "player_next") {
        ShortcutEffect::Dispatch(AppAction::PlaybackAction(PlaybackAction::Next))
    } else if same_text(name, "nav_pop") {
        ShortcutEffect::Dispatch(AppAction::BrowserAction(BrowserAction::NavigationPop))
    } else if same_text(name, "search") {
        ShortcutEffect::Dispatch(AppAction::BrowserAction(BrowserAction::NavigationPush(ScreenName::Search)))
    } else if same_text(name, "open_playlist") {
        match parameter {
            Some(id) => ShortcutEffect::Dispatch(AppAction::ViewPlaylist(id.to_owned())),
            None => ShortcutEffect::Ignore,
        }
    } else {
        ShortcutEffect::Ignore
    }
}

/// Every registered application action without a parameter does something.
pub proof fn lemma_registered_shortcuts_act(i: int)
    requires
        0 <= i < 6,
    ensures
        !(shortcut_effect_of(shortcut_names()[i], None) is Ignore),
{
}

/// What activating the application does.
#[derive(Clone, Copy, Debug, PartialEq, Eq, Structural)]
pub enum Activation {
    /// A window is open already: bring it to the front.
    PresentExisting,
    /// Attach the main window to the application, show it, and dispatch
    /// the start action.
    ShowWindowAndStart,
}

/// Only the first activation shows the window and starts the application.
pub fn activation(has_active_window: bool) -> (plan: Activation)
    ensures
        plan == (if has_active_window { Activation::PresentExisting } else { Activation::ShowWindowAndStart }),
{
    if has_active_window {
        Activation::PresentExisting
    } else {
        Activation::ShowWindowAndStart
    }
}

/// The action dispatched when the application starts.
pub fn start_action() -> (action: AppAction)
    ensures
        action@ == AppActionView::Start,
{
    AppAction::Start
}

} // verus!
