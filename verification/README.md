# multi_account

Saved ChatGPT accounts for Codex: the `accounts.json` index of saved
credentials with one active account, switching and removal, the choice of the
next account to fail over to, rate-limit classification, the rows that list the
accounts, and the account picker. The functions in `src/` are verified with
Verus against their `requires`/`ensures`, except three small trusted wrappers
whose contracts are taken on trust: `timestamp_is_representable` and
`local_day_month_time` in `src/clock.rs` (calls into `chrono`) and `join_path`
in `src/store.rs` (`std::path::Path::join`). `src/laws.rs` proves what the
operations keep across calls.

- `src/store.rs`: the index and its operations (upsert, import, switch,
  remove, update, sync, next account).
- `src/limits.rs`, `src/snapshots.rs`, `src/refresh.rs`: rate-limit snapshots,
  the per-account snapshot map, and the bookkeeping of a limit refresh.
- `src/display.rs`, `src/picker.rs`: account rows, 1-based indexes, the picker.
- `src/metadata.rs`, `src/auth.rs`, `src/account_id.rs`: credentials and ids.
- `src/clock.rs`, `src/text.rs`: calendar checks through `chrono`, decimals.
- `app/`: reading and writing the JSON files, and running the limit fetches.
