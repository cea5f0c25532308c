# jellytui

A terminal client for Jellyfin media servers: log in, browse the libraries
and the home rows (continue watching, next up, recently added), search, play
items in mpv with playback reporting, and download items.

- `src/` is the verified library: the session and the requests it makes
  (`client`), the server's data (`model`), the application state and its
  transitions (`app`), key maps (`input`), download bookkeeping (`download`),
  poster decoding and fetch bookkeeping (`images`), player arguments and
  monitor decisions (`player`), labels and layout arithmetic (`ui`), and text
  building blocks (`text`). Each function states its behaviour in `requires`/`ensures`; the
  `lemma_*` proof functions state properties that relate several of them.
- `app/` is the program around it: HTTP with reqwest, JSON with serde, the
  terminal with crossterm and ratatui, drawing posters with ratatui-image,
  the clock, the mpv process and its IPC socket, files and configuration.
- `tests/` exercises the library on concrete values.
