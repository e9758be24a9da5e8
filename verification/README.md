# app_dist

The verified core of the `app-dist` command line tool, which ships macOS betas:
archive, sign, notarize, package, upload, and send download links to testers.

- `src/` is the library, written in Verus. It holds the logic of the tool:
  which request each command sends (method, URL, JSON members); how a release
  settles its app, scheme, project, archive, version and build number (flags,
  then `app-dist.yml`, then the environment); which steps a release runs for
  its flags, the exact command line of each tool, when a failed step stops the
  release, where the DMG, the ZIP and their SHA-256 checksum file go, in which
  order the artifacts are uploaded and when a refused upload stops the release; where `app-dist.yml`
  is searched for; how `app-dist.yml` is read; when `login` stores a key; how
  artifacts are named; and how listings and sizes are printed. Its functions
  carry contracts proved by Verus, except `text::push_char`, a thin wrapper of
  `String::push` whose contract is trusted. The laws of the library (the
  release plan, stable truncation, columns that fit, `app-dist.yml` round
  trips, numbers that read back, login storing only validated keys) are proof
  functions whose names start with `law_`.
- `app/` is the program around it: argument parsing with clap, HTTP with
  reqwest, the Keychain, running `xcodebuild` and the other tools, the file
  system, and the terminal. It runs the steps that the library plans and hands
  each result back to it.
- `tests/` runs the library on concrete values, and compares the size and
  whitespace logic with what Rust's own formatting and `char` methods give.
