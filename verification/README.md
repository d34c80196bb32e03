# bugsink

A command-line client for the [Bugsink](https://www.bugsink.com/) error
tracker, whose logic is specified and proved with Verus.

- `src/` is the verified library:
  - `cli`: the commands and options as plain data;
  - `config`: where the instance URL and token come from (flags, then
    environment, then the configuration file) and where that file lives;
  - `commands`: the API call each command makes;
  - `client`: endpoint URLs, the authorization header, and the gathering of
    paginated lists;
  - `output`: compact or pretty output, and the `--fields` filter;
  - `auth`: the decisions and reports of `auth login`, `status`, `logout`;
  - `login`: `auth login` as a state machine, with the law that the
    configuration is written only after the API accepted the credentials;
  - `archive`: taking the program out of a release archive (read with the
    `tar` and `flate2` crates);
  - `updater`: the self-update command as a state machine, with the laws
    that it never replaces a program managed by `cargo install` and only
    installs a release newer than the running one;
  - `update`, `version`, `paths`: the self-update decisions, semantic
    versions (parsed and ordered by the `semver` crate), and file paths;
  - `json`, `text`: JSON values and string helpers with their views.
- `app/` is the program around it: argument parsing with clap, HTTP with
  reqwest, files, the terminal, and the file replacement of `update`.
- `tests/` runs the library on concrete values.
