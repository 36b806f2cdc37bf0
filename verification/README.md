# wallthi

A daemon that rotates wallpapers with `swww`, one loop per monitor, and a
command-line client that pauses, resumes, queries or stops it over TCP.

- `src/` is the verified library (Verus): the daemon's state machine and its
  laws (`command/state.rs`), the wallpaper loop's decisions and the `swww`
  arguments (`command/mod.rs`), the random choice of a wallpaper
  (`command/img_paths.rs`), the configuration model (`dot_config`), the
  framing of received messages (`tcp`) and the error type (`utils/error.rs`).
- `app/` is the program around it: command-line parsing, reading the
  configuration file, the file system, sockets, threads, `swww` itself, and
  the copies of the library's types that carry `serde`, `clap`, `strum` and
  `thiserror` derives.
- `tests/` runs the library on concrete values.
