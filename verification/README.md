# codexmanager_service

The decision logic of the CodexManager service layer, verified with Verus.

- `src/` — the verified library:
  - `text`: Unicode white space, trimming, ASCII case folding, equality and prefixes over `Seq<char>`.
  - `calendar`: calendar days, the next day, and the UNIX second of a day's wall-clock midnight.
  - `actor`: the RPC caller (`RpcActor`), role normalisation and permissions.
  - `access`: which API keys a caller may see, and filtering a listing to the caller's own keys.
  - `api_keys`: attaching token quotas to the key list.
  - `day_bounds`: the time window of a request-log report (requested, or the current local day from a clock reading, via chrono's time-zone mapping).
  - `token_summary`: clamping and combining the token counts of a report.
  - `failover`: when an account is failed over after a usage refresh or from its snapshot.
  - `model_groups`: routing of `modelGroups/*` methods and payload checks.
- `app/` — unverified glue: storage reads through a `ServiceStorage` trait, JSON (serde) handling,
  floating-point cost fields, and the serialisable copy of `RpcActor`.
- `tests/` — executable tests of the library.
