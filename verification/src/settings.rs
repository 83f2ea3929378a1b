use vstd::prelude::*;

use crate::text::same_text;

verus! {

/// The position of `s` among three choices, the first that matches.
pub open spec fn choice_position(names: Seq<Seq<char>>, s: Seq<char>) -> Option<u32> {
    if names[0] == s {
        Some(0)
    } else if names[1] == s {
        Some(1)
    } else if names[2] == s {
        Some(2)
    } else {
        None
    }
}

/// The choice at `position`, if there is one.
pub open spec fn choice_at(names: Seq<Seq<char>>, position: u32) -> Option<Seq<char>> {
    if position < 3 {
        Some(names[position as int])
    } else {
        None
    }
}

/// The three choices differ from each other.
pub open spec fn distinct_choices(names: Seq<Seq<char>>) -> bool {
    names.len() == 3 && names[0] != names[1] && names[0] != names[2] && names[1] != names[2]
}

fn choice_offered(s: &str, a: &str, b: &str, c: &str) -> (offered: bool)
    ensures
        offered == choice_position(seq![a@, b@, c@], s@) is Some,
{
    same_text(s, a) || same_text(s, b) || same_text(s, c)
}

fn choice_row(s: &str, a: &str, b: &str, c: &str) -> (row: u32)
    requires
        choice_position(seq![a@, b@, c@], s@) is Some,
    ensures
        choice_position(seq![a@, b@, c@], s@) == Some(row),
{
    if same_text(s, a) {
        0
    } else if same_text(s, b) {
        1
    } else {
        2
    }
}

fn choice_name(row: u32, a: &'static str, b: &'static str, c: &'static str) -> (name: &'static str)
    requires
        row < 3,
    ensures
        name@ == seq![a@, b@, c@][row as int],
{
    if row == 0 {
        a
    } else if row == 1 {
        b
    } else {
        c
    }
}

/// Stored values of the "player-bitrate" setting, in the order of the
/// bitrate row of the settings dialog.
pub open spec fn bitrate_choices() -> Seq<Seq<char>> {
    seq!["96"@, "160"@, "320"@]
}

/// Stored values of the "audio-backend" setting, in row order.
pub open spec fn audio_backend_choices() -> Seq<Seq<char>> {
    seq!["pulseaudio"@, "alsa"@, "gstreamer"@]
}

/// Stored values of the "theme-preference" setting, in row order.
pub open spec fn theme_choices() -> Seq<Seq<char>> {
    seq!["light"@, "dark"@, "system"@]
}

/// Whether a stored bitrate is one of the values the dialog offers; the dialog
/// cannot show any other value.
pub fn bitrate_offered(stored: &str) -> (offered: bool)
    ensures
        offered == choice_position(bitrate_choices(), stored@) is Some,
{
    choice_offered(stored, "96", "160", "320")
}

/// The row selected for a stored bitrate, which must be one of the values offered.
pub fn bitrate_index(stored: &str) -> (row: u32)
    requires
        choice_position(bitrate_choices(), stored@) is Some,
    ensures
        choice_position(bitrate_choices(), stored@) == Some(row),
{
    choice_row(stored, "96", "160", "320")
}

/// The value stored for a selected row of the dialog's three rows.
pub fn bitrate_name(row: u32) -> (stored: &'static str)
    requires
        row < 3,
    ensures
        Some(stored@) == choice_at(bitrate_choices(), row),
{
    choice_name(row, "96", "160", "320")
}

/// Whether a stored audio backend is one of the values the dialog offers; the dialog
/// cannot show any other value.
pub fn audio_backend_offered(stored: &str) -> (offered: bool)
    ensures
        offered == choice_position(audio_backend_choices(), stored@) is Some,
{
    choice_offered(stored, "pulseaudio", "alsa", "gstreamer")
}

/// The row selected for a stored audio backend, which must be one of the values offered.
pub fn audio_backend_index(stored: &str) -> (row: u32)
    requires
        choice_position(audio_backend_choices(), stored@) is Some,
    ensures
        choice_position(audio_backend_choices(), stored@) == Some(row),
{
    choice_row(stored, "pulseaudio", "alsa", "gstreamer")
}

/// The value stored for a selected row of the dialog's three rows.
pub fn audio_backend_name(row: u32) -> (stored: &'static str)
    requires
        row < 3,
    ensures
        Some(stored@) == choice_at(audio_backend_choices(), row),
{
    choice_name(row, "pulseaudio", "alsa", "gstreamer")
}

/// Whether a stored theme preference is one of the values the dialog offers; the dialog
/// cannot show any other value.
pub fn theme_offered(stored: &str) -> (offered: bool)
    ensures
        offered == choice_position(theme_choices(), stored@) is Some,
{
    choice_offered(stored, "light", "dark", "system")
}

/// The row selected for a stored theme preference, which must be one of the values offered.
pub fn theme_index(stored: &str) -> (row: u32)
    requires
        choice_position(theme_choices(), stored@) is Some,
    ensures
        choice_position(theme_choices(), stored@) == Some(row),
{
    choice_row(stored, "light", "dark", "system")
}

/// The value stored for a selected row of the dialog's three rows.
pub fn theme_name(row: u32) -> (stored: &'static str)
    requires
        row < 3,
    ensures
        Some(stored@) == choice_at(theme_choices(), row),
{
    choice_name(row, "light", "dark", "system")
}

/// The bitrate, backend and theme choices are each distinct.
pub proof fn lemma_choices_distinct()
    ensures
        distinct_choices(bitrate_choices()),
        distinct_choices(audio_backend_choices()),
        distinct_choices(theme_choices()),
{
    reveal_strlit("96");
    reveal_strlit("160");
    reveal_strlit("320");
    reveal_strlit("pulseaudio");
    reveal_strlit("alsa");
    reveal_strlit("gstreamer");
    reveal_strlit("light");
    reveal_strlit("dark");
    reveal_strlit("system");
    assert("96"@.len() == 2 && "160"@.len() == 3 && "320"@.len() == 3);
    assert("160"@[0] == '1' && "320"@[0] == '3');
    assert("pulseaudio"@.len() == 10 && "alsa"@.len() == 4 && "gstreamer"@.len() == 9);
    assert("light"@.len() == 5 && "dark"@.len() == 4 && "system"@.len() == 6);
    assert(bitrate_choices()[0] != bitrate_choices()[1]);
    assert(bitrate_choices()[0] != bitrate_choices()[2]);
    assert(bitrate_choices()[1] != bitrate_choices()[2]);
    assert(audio_backend_choices()[0] != audio_backend_choices()[1]);
    assert(audio_backend_choices()[0] != audio_backend_choices()[2]);
    assert(audio_backend_choices()[1] != audio_backend_choices()[2]);
    assert(theme_choices()[0] != theme_choices()[1]);
    assert(theme_choices()[0] != theme_choices()[2]);
    assert(theme_choices()[1] != theme_choices()[2]);
}

/// Storing a selected row and reading it back selects the same row, and
/// reading a stored value and storing its row gives the same value back.
pub proof fn lemma_choice_round_trip(names: Seq<Seq<char>>, row: u32, stored: Seq<char>)
    requires
        distinct_choices(names),
    ensures
        row < 3 ==> choice_position(names, choice_at(names, row).unwrap()) == Some(row),
        choice_position(names, stored) matches Some(r) ==> choice_at(names, r) == Some(stored),
{
}

/// The round trip holds for the bitrate, audio backend and theme settings.
pub proof fn lemma_settings_round_trip(row: u32, stored: Seq<char>)
    ensures
        row < 3 ==> choice_position(bitrate_choices(), choice_at(bitrate_choices(), row).unwrap()) == Some(row),
        row < 3 ==> choice_position(audio_backend_choices(), choice_at(audio_backend_choices(), row).unwrap())
            == Some(row),
        row < 3 ==> choice_position(theme_choices(), choice_at(theme_choices(), row).unwrap()) == Some(row),
        choice_position(bitrate_choices(), stored) matches Some(r) ==> choice_at(bitrate_choices(), r)
            == Some(stored),
        choice_position(audio_backend_choices(), stored) matches Some(r) ==> choice_at(
            audio_backend_choices(),
            r,
        ) == Some(stored),
        choice_position(theme_choices(), stored) matches Some(r) ==> choice_at(theme_choices(), r)
            == Some(stored),
{
    lemma_choices_distinct();
    lemma_choice_round_trip(bitrate_choices(), row, stored);
    lemma_choice_round_trip(audio_backend_choices(), row, stored);
    lemma_choice_round_trip(theme_choices(), row, stored);
}

/// The color scheme that the style manager is set to.
#[derive(Clone, Copy, Debug, PartialEq, Eq, Structural)]
pub enum ColorScheme {
    ForceLight,
    ForceDark,
    Default,
}

/// The color scheme for the selected theme row: light, dark, or whatever the
/// system prefers for any other row.
pub open spec fn color_scheme_of(row: u32) -> ColorScheme {
    if row == 0 {
        ColorScheme::ForceLight
    } else if row == 1 {
        ColorScheme::ForceDark
    } else {
        ColorScheme::Default
    }
}

/// Picks the color scheme when another theme row is selected.
pub fn color_scheme_for(row: u32) -> (scheme: ColorScheme)
    ensures
        scheme == color_scheme_of(row),
{
    match row {
        0 => ColorScheme::ForceLight,
        1 => ColorScheme::ForceDark,
        _ => ColorScheme::Default,
    }
}

/// The color scheme that a stored theme preference names.
pub open spec fn scheme_for_theme(stored: Seq<char>) -> ColorScheme {
    if stored == "light"@ {
        ColorScheme::ForceLight
    } else if stored == "dark"@ {
        ColorScheme::ForceDark
    } else {
        ColorScheme::Default
    }
}

/// The scheme applied for a theme row is the one its stored value names.
pub proof fn lemma_theme_row_matches_scheme(row: u32)
    requires
        row < 3,
    ensures
        color_scheme_of(row) == scheme_for_theme(theme_choices()[row as int]),
{
    lemma_choices_distinct();
}

/// Whether the ALSA device row is shown for the selected audio backend row.
pub fn alsa_device_row_visible(backend_row: u32) -> (visible: bool)
    ensures
        visible == (backend_row == 1),
{
    backend_row == 1
}

/// Whether the ALSA device row is hidden when the dialog opens; the row is
/// only hidden up front for the first backend row.
pub fn alsa_device_row_hidden_at_start(backend_row: u32) -> (hidden: bool)
    ensures
        hidden == (backend_row == 0),
{
    backend_row == 0
}

/// The ALSA device row is shown exactly when the ALSA backend is selected.
pub proof fn lemma_alsa_row_follows_backend(backend_row: u32)
    ensures
        (backend_row == 1) <==> choice_at(audio_backend_choices(), backend_row) == Some("alsa"@),
{
    lemma_choices_distinct();
}

/// The player settings as the settings store holds them.
#[derive(Debug)]
pub struct PlayerSettings {
    /// Row of the "player-bitrate" setting.
    pub bitrate: u32,
    /// Row of the "audio-backend" setting.
    pub backend: u32,
    /// The "alsa-device" setting; the player uses it only with the ALSA
    /// backend (row 1).
    pub alsa_device: String,
    /// The "gapless-playback" setting.
    pub gapless: bool,
    /// The "ap-port" setting.
    pub ap_port: u32,
}

/// Two sets of player settings configure the player alike: same bitrate,
/// backend, gapless playback and access point port, and, with the ALSA
/// backend, the same ALSA device.
pub open spec fn same_player_settings(a: PlayerSettings, b: PlayerSettings) -> bool {
    &&& a.bitrate == b.bitrate
    &&& a.backend == b.backend
    &&& (a.backend == 1 ==> a.alsa_device@ == b.alsa_device@)
    &&& a.gapless == b.gapless
    &&& a.ap_port == b.ap_port
}

/// When the settings dialog closes, the player is stopped if its settings
/// changed while the dialog was open.
pub fn must_stop_player(before: &PlayerSettings, after: &PlayerSettings) -> (stop: bool)
    ensures
        stop == !same_player_settings(*before, *after),
{
    let same_device = before.backend != 1 || before.alsa_device == after.alsa_device;
    !(before.bitrate == after.bitrate && before.backend == after.backend && same_device
        && before.gapless == after.gapless && before.ap_port == after.ap_port)
}

/// A step taken when the settings dialog closes.
#[derive(Clone, Copy, Debug, PartialEq, Eq, Structural)]
pub enum CloseStep {
    /// Stop the player, whose settings changed.
    StopPlayer,
    /// Apply the settings read from the store.
    ApplySettings,
}

/// The steps of a close of the settings dialog, in order: the player is
/// stopped when its settings changed, and the new settings are applied.
pub open spec fn close_steps_for(before: PlayerSettings, after: PlayerSettings) -> Seq<CloseStep> {
    if same_player_settings(before, after) {
        seq![CloseStep::ApplySettings]
    } else {
        seq![CloseStep::StopPlayer, CloseStep::ApplySettings]
    }
}

/// What to do, in order, when the settings dialog is closed; `after` holds
/// the settings as the store holds them at that moment.
pub fn settings_close_steps(before: &PlayerSettings, after: &PlayerSettings) -> (steps: Vec<CloseStep>)
    ensures
        steps@ == close_steps_for(*before, *after),
{
    let mut steps: Vec<CloseStep> = Vec::new();
    if must_stop_player(before, after) {
        steps.push(CloseStep::StopPlayer);
    }
    steps.push(CloseStep::ApplySettings);
    assert(steps@ =~= close_steps_for(*before, *after));
    steps
}

/// Every close applies the settings exactly once, as its last step; the
/// player is stopped at most once, before that, and exactly when its
/// settings changed.
pub proof fn lemma_close_stops_before_applying(before: PlayerSettings, after: PlayerSettings)
    ensures
        close_steps_for(before, after).len() >= 1,
        close_steps_for(before, after).last() == CloseStep::ApplySettings,
        forall|i: int|
            0 <= i < close_steps_for(before, after).len() - 1 ==> #[trigger] close_steps_for(before, after)[i]
                == CloseStep::StopPlayer,
        (close_steps_for(before, after).len() == 2) == !same_player_settings(before, after),
        close_steps_for(before, after).len() <= 2,
{
}

/// Closing the dialog stops the player when any player setting changed (the
/// bitrate, the backend, gapless playback, the access point port, or the
/// ALSA device while the ALSA backend is in use), and then applies the
/// settings; when none changed it only applies them.
pub proof fn lemma_close_stops_on_any_player_change(before: PlayerSettings, after: PlayerSettings)
    ensures
        (before.bitrate != after.bitrate || before.backend != after.backend || before.gapless
            != after.gapless || before.ap_port != after.ap_port || (before.backend == 1
            && before.alsa_device@ != after.alsa_device@)) ==> close_steps_for(before, after) == seq![
            CloseStep::StopPlayer,
            CloseStep::ApplySettings,
        ],
        (before.bitrate == after.bitrate && before.backend == after.backend && before.gapless
            == after.gapless && before.ap_port == after.ap_port && (before.backend == 1
            ==> before.alsa_device@ == after.alsa_device@)) ==> close_steps_for(before, after) == seq![
            CloseStep::ApplySettings,
        ],
{
}

} // verus!
