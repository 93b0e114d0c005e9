# plex_presence

Shows the music that a Plex server is playing as a Discord rich presence.

- `src/` is the verified library (Verus): command-line flags and the
  process-id parsing behind `--replace` (`arguments`), configuration values
  (`config`), URL percent-encoding through the `urlencoding` crate
  (`encoding`), the Plex session model, activity texts and request URLs
  (`plex`), the presence clients' update decisions (`discord`), and the
  polling loop's decisions (`activity_monitor`).
- `app/` is the program around it: reading the command line and the
  configuration file, HTTP requests to Plex, JSON and TOML decoding, the
  Discord IPC connection, signals and the polling loop itself.
- `tests/` runs the library on concrete values.
