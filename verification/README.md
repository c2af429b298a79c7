# draft_team

The core of a League of Legends draft assistant, verified with Verus.

- `src/domain`: champions, drafts, composition profiles and alerts, the
  explainable scoring model (exact fixed-point scores).
- `src/application`: composition analysis, candidate scoring and ranking,
  draft review.
- `src/adapters`: the local Riot client (lockfile, localhost-only requests,
  response interpretation, lockfile discovery decisions, champ-select payloads
  and their transformation into a draft) and the champ-select monitor
  (adaptive polling, live/sandbox fallback, change events).
- `src/commands`, `src/services`: the workflows and services that the desktop
  shell exposes.
- `src/storage`: patch ordering and the choice of the champion data version
  that serves a patch, stored-row identifiers, export bundle rules.
- `app/`: the process around the library: files, `curl`, SQLite through
  `sqlx`, serialisation.

Scores are integers: raw sub-scores in hundredths of a point, weights in
hundredths, weighted and final scores in ten-thousandths of a point; role
confidences are in hundredths.

`tokio` is a dependency for `app/` alone: it is the async runtime that
`sqlx` runs on and that `app/main.rs` starts.
