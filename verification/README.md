# oadiscord

A Discord control plugin for OpenAction hosts, with its logic verified by
Verus.

- `src/` is the verified library: the plugin state kept between Discord
  RPC events (cached guilds, channels and soundboard sounds, waiting
  requests, the followed voice channel and its participants), how each
  event changes it and what it sets off, and the decisions of each button
  and dial. `src/laws.rs` states properties that span several functions.
- `tests/` runs the library on concrete values.
- `app/` is the plugin around it: the OpenAction action handlers, the
  Discord RPC connection, image files and property-inspector JSON.
