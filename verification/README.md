# invil

A build tool that wraps make and builds the git-tagged versions of a project
(`amboso`'s `anvil`). This crate holds its verified core; `app/` holds the
command line program around it.

## Layout

- `src/` — the library, verified with Verus:
  - `chars`, `order`: text helpers and the character order of texts, with the
    tables of tests kept in that order.
  - `semver`, `vtable`: version keys, their order, and the tables of versions.
  - `toml_doc`, `trusted`: a parsed TOML document as plain values, and the calls
    into `regex`, `toml`, `url` and std whose contracts the proofs rely on.
  - `stego`, `legacy`, `conf`, `custom`, `pyproj`, `makefile`: readers of the
    stego.lock (TOML and line formats), the global configuration, the custom and
    Python project settings, and Makefiles.
  - `env`, `args`, `run`: the run's state and arguments, and how they are checked
    and completed from each other.
  - `query`, `building`, `records`, `header`, `scaffold`, `session`, `checks`,
    `lint`: the operations of a run, the commands they choose and what their
    outcomes make of them; the generated files; the linter.
- `tests/` — tests of the library on concrete values.
- `app/` — `main`, the command line, the file system, git and the commands.
