# keeper_registry

A verified model of a keeper network's task registry: owners post funded
automation tasks, keepers claim and execute them for a reward net of a
protocol fee, and unfinished tasks are refunded by cancellation or expiry.

- `src/` is the library, checked by Verus. `registry.rs` holds the state and
  every entry point, each with an exact contract over `RegistryView`;
  `laws.rs` states the properties of the registry as a whole (solvency, the
  pause policy, single payout, escrow recoverability, withdrawal liveness,
  fresh task ids, the reward split and the lock window). `verifiers/` holds
  the decisions of the three proof verifiers, `fuzzing/` the input
  generators and the outcome predictions used to drive the registry,
  `isolation.rs` the checks that administrative calls leave escrow and
  keeper credit alone, and `bytes.rs` the byte encodings.
- `app/` holds the Soroban contracts around the library: authorization,
  storage, the reward token, cross-contract calls and events.
- `tests/` exercises the library on concrete scenarios.
