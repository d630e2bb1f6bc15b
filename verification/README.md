# dxc

The rules of DXC, a command-line downloader for videos, audio and images,
as a Verus library with a thin command line around it.

- `src/` — the verified library: which source handles a URL (`provider`),
  where downloads go and which leftovers are cleared (`download`), file names
  and extensions (`path`), sizes and durations as text (`format`), settings
  and their keys (`config`, `dirs`), the history (`history`), the ffmpeg
  conversion plan (`converter`), and what yt-dlp, plain HTTP and the Reddit
  API are asked and how their answers are read (`ytdlp`, `generic`,
  `reddit`). `text` holds the character-level helpers they share.
- `app/` — the `dxc` program: argument parsing, the settings file, the SQLite
  history, processes, HTTP, and progress output.
- `tests/` — tests of the library on concrete values.
