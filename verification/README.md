# NeverMind

A spaced-repetition knowledge-card library with a desktop browsing observer.

`src/` is the verified library (Verus):

- `text`, `time` — character-level string handling and UTC instants as plain values.
- `scheduler` — the forgetting-curve review intervals and the next-review decision.
- `models` — cards, reviews and settings as stored.
- `ai` — the prompt, reading cards out of the model's reply, the Ark client's reply handling and settings.
- `commands` — what each command decides: generation, the review queue and streak, the library search
  and keyword buckets, settings and model profiles, the tray and the screenshot buffer.
- `db::dao::card_dao` — keyword matching, `LIKE` patterns and the keyword-bucket aggregation.
- `harness_core` — the browser heuristics, desktop events and the recording state of the observer.
- `nevermind` — the first-generation card pipeline (single-keyword cards).
- `utils::error` — application errors and their stable codes.

`app/` is the unverified shell: SQLite access, HTTP to the model, JSON over standard input/output,
and the observer's polling loop. It runs on the `tokio` runtime: `sqlx` and `reqwest` are
asynchronous and need one, and the desktop framework whose runtime would otherwise host them is not
part of this build. Window and screen capture, tray and global-shortcut registration need that
framework and the Win32 APIs, so the shell does not offer them.

`tests/` exercises the library on concrete values.
