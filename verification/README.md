# navidrome-tui

A terminal music player for Navidrome and other Subsonic-compatible servers, with vim-style
keys, a play queue with repeat and shuffle, playlists and media-key support.

The program is split in two:

- `src/` is the library, verified with Verus: the application state and what every key
  press, server reply, player report and media key does to it (`app`); the Subsonic request
  parameters, authentication tokens and what responses become (`client`); the configuration
  (`config`); the play queue, the player's command handling and media-key mapping (`player`);
  and what the screens show (`ui`), including the marquee scrolling of long lines.
  Each public function states its behaviour in its contract; the properties that span several
  calls (for example that `n` after Enter walks the list in order, or that the shuffle order
  visits every track once) are stated and proved as proof functions.
- `app/` is the terminal front end: reading and writing the configuration file, HTTP with
  reqwest, the mpv player thread, media controls, drawing with ratatui and the event loop.
  It performs the actions the library asks for and hands the outcomes back.

`tests/` exercises the library on concrete values.
