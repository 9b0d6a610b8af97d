# appfs

Verified core of the AppFS adapter runtime: normalisation of the app ids one runtime
serves, the per-app runtime arguments and shared bridge configuration, session ids,
the serve plan (poll interval, default app) and serve-loop decisions, snapshot wire
names and the connector error for unsupported structure sync.

Verus checks every function in `src/` against its contract, except the trusted items
whose contracts it takes on trust: `session::new_v4_simple_hex` (the `uuid` call that
draws a random UUID), and the declaration of `std::path::PathBuf` with the
specification of its `clone`. `app/` holds the Tokio command loop that drives the
adapters.
