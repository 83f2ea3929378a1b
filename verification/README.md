# spot

The decisions of the Spot music player's interface, as a verified library.

- `src/notifier.rs`: which command each application event sends to the
  local player or to the Spotify Connect player.
- `src/playback.rs`: events, commands and the playback state they read.
- `src/spotify_id.rs`: decoding of base62 Spotify ids.
- `src/settings.rs`: the settings dialog's rows and stored values.
- `src/components.rs`: how the pages react to events.
- `src/actions.rs`: the application actions.
- `src/credits.rs`, `src/text.rs`: credits files and decimal text.
- `app/`: the GTK shell around the library.
