# aur_helper

The verified core of a helper for maintaining AUR packages: it keeps a
SQLite catalogue of packages, compares their AUR versions with upstream
releases, caches GitHub tags, picks proxies, configures password-less
`pacman -U` through sudoers, and installs or cleans cached packages.

Layout:

- `src/` — the library, verified with Verus. Each module states its
  behaviour in `requires`/`ensures` contracts over spec functions:
  - `text` — string helpers and their specifications (trim, words, numbers);
  - `pkgfile` — package file names and package path checks;
  - `sudoers` — generating and recognising sudoers rules;
  - `batch`, `github_cache`, `upstream`, `tag_cache` — planning upstream
    version checks, the GitHub tag cache and the database writes that
    follow a check;
  - `sync` — AUR and PKGBUILD synchronisation decisions;
  - `proxy`, `http` — proxy lookup (a state machine driven by the caller)
    and HTTP client construction;
  - `migration`, `settings`, `records`, `pacman` — schema migration plans,
    default data, stored record formats and command outcomes;
  - `error`, `models` — the error type and the data model.
- `tests/` — tests of the library, run against the real outside crates.
- `app/` — the command-line program around the library: SQLite access,
  HTTP requests, running commands and reading the file system.
