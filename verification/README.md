# wedding_quest

The rules of the Wedding Quest party quiz as a verified library, and the three
services (engine, scoring, realtime) that run it.

- `src/` — the library, verified with Verus:
  - `engine` — rounds, game state and events; the decisions of the engine's
    commands (start, next question, close round, couple answers, answer
    submission, reset) as functions from what was read to what is stored,
    published and answered; the play order of a session's questions.
  - `scoring` — how each answer of a closed round is scored (base points, answer
    time tier, catch-up bonus, Lucky Boost), player totals, the ranked
    leaderboard, and who gets the next Lucky Boost.
  - `realtime`, `settings`, `channels` — service settings, port reading, and the
    Redis channel names that tie the services together.
- `app/` — the services: HTTP handlers, Postgres stores, Redis publishing and
  subscribing, WebSockets. They read, call the library, and write. The score
  multipliers are fractional, so the product
  `base_points × time_multiplier × catch-up × Lucky Boost` is taken there, on
  the library's decisions.
- `tests/` — tests of the library on concrete games.

Identifiers are UUIDs held as their 128-bit value; times are microseconds since
the Unix epoch.
