# devman

A site manager for a local Apache/PHP-FPM development machine: it sets up a
site (database, virtual host, web root link, hosts entry, optionally
WordPress), removes one, or restarts its services.

- `src/` is the verified library: every name, path, file content, prompt
  decision and command the program derives, and the order of the steps of
  each command (`src/flow.rs`), with its contract proved by Verus.
  Calls into the `regex` and `addr` crates stand behind the trusted items in
  `src/pattern.rs` and `src/cli.rs`.
- `app/` is the program around it: argument parsing, prompts, the file
  system, the database server, the download and unpacking of WordPress, and
  the `service` commands.
- `tests/` runs the library on concrete values.
