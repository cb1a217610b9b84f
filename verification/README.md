# vitaforge

The library behind VitaForge, a homebrew store for the PlayStation Vita,
written in Verus. Every function in `src/` carries a contract; Verus proves
each one, except the few small wrappers around `std`, `serde_json`,
`fluent-bundle`, `md-5` and `sha1`, whose contracts are trusted and whose doc
comments say what they claim.

- `data/` — catalog entries and their kinds, the API record conversion,
  size labels, the SQLite row layout, settings and cache accounting.
- `catalog` — the grid's sort order (a verified stable sort), filters,
  counts, tile art and precaching.
- `controller` — the store's decisions: how each command and each report
  from the outside work (a fetch, an install, a new grid) changes the
  screen and the catalog state, and which work comes next.
- `twins` — one copy of each homebrew title that both VitaDB catalogs
  list, chosen by version, catalog, icon, downloads and date.
- `text` — the cleaning of texts from the catalog (entities, invisible and
  undrawable characters, spacing).
- `icons`, `gate` — the image cache's paths, state machine, pruning and
  eviction, and the pacing of requests to the image server.
- `i18n` — the interface texts, formatted by `fluent-bundle`.
- `input`, `navigation`, `sidebar`, `chrome_icons` — the key and button
  maps, the touch pointer, and moving around the store.
- `audio`, `client_id`, `sysinfo` — the WAV reader, the client id, and the
  status-bar readings.

`app/` is a small command-line program around the library: it fetches and
caches the catalog, lists it in the saved sort order (each homebrew title
once), and maintains the
caches. `tests/` exercises the library.
