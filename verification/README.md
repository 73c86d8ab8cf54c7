# service_vendor

The eSIM service vendor of a telecom platform: it serves the common vendor
routes (eSIMs, packages, extensions, balances) and receives the webhooks that
report balances and locations, which it turns into Telegram alerts.

## Layout

- `src/` is the verified library (Verus). It holds the decisions of the
  service, each with its contract:
  - `decimal`, `text`: reading and writing integers as `str::parse` and
    `Display` do; character-level text work.
  - `balance`: the alert borders of a balance webhook and the alert chosen,
    including the share of the package computed through `f64` rounding in
    integer arithmetic.
  - `location`: country-change alerts and the roaming-refusal warning.
  - `telegram`: the alert bodies and endpoints of the notification service.
  - `extension`: extension records, and how balances reported by the
    provider lower the ones on record (never raising one, idempotent).
  - `extension_add`, `extension_query`, `extension_delete`: step machines for
    the extension requests; the caller performs each action (database, cache,
    provider) and hands back its outcome.
  - `controller`, `routes`, `reply`: replies of the extension endpoints, the
    table of common vendor routes.
  - `cache`, `database`: the shared Redis client and database connection.
- `tests/`: tests of the library.
- `app/`: the server around it: HTTP routing, database and cache access,
  the provider and Telegram calls, and the euro comparisons, which are
  floating-point.
