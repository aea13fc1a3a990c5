# team_polls

A team polling service: users register and log in, found and join teams, and
open, edit, vote in and follow polls inside their teams.

- `src/` is the verified library. Every HTTP handler is a chain of phases
  (`handlers/*.rs`): a phase names the database work it needs next and, given
  the answer, decides the next phase or the reply. Contracts state each
  decision exactly: which status and message answer each outcome, what is
  stored, and what is shown. `middleware/auth.rs` reads the bearer token,
  `clock.rs` holds the closing rule shared by votes, edits and views.
- `app/` is the server around it: routes, the MySQL queries, JWT signing and
  checking, the results stream and its percentages. It runs the library's
  phases and decides nothing itself.
- `tests/` drive the phases with concrete answers.
