# Flight Deal Tracker

Watches weekend flights from eight US airports to Tokyo (Narita and Haneda),
keeps the price history, learns each route's baseline over 14 days of data,
and sends one Discord alert per deal when a price drops well below it.

## Layout

- `src/` — the library, whose contracts are proved. It holds the tracker's rules:
  the weekend search dates (`dates`), route phases and percentiles
  (`baseline`), deal classification (`detector`), alert fingerprints and the
  re-alert rule (`dedup`), the webhook retry rule and alert text
  (`notifier`), health and start-up decisions (`health`), route keys and
  filters (`routes`), ports and default routes (`config`), API query
  defaults (`api`), fetch plans and booking links (`fetcher`), and the
  status table's labels (`status`), and the last-run record and its
  timestamps (`clock`).
- `app/` — the program around it: the `tracker` command line (`status`,
  `history`, `backfill`, `test-alert`, `run`, `api`), SQLite storage, HTTP
  calls, the scheduler, and the statistics and thresholds, which are
  floating point.
- `tests/` — tests of the library.

Calendar arithmetic and date text come from chrono; fingerprints are
SHA-256 (sha2) in lower-case hex (hex).
