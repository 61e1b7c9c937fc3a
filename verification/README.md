# beryl_metadata

The decisions of a metadata service for a distributed file system, verified with Verus.

The library in `src/` holds state and rules and does no I/O. Requests that need something from
outside are step functions: they take what a request carries and what has been seen so far, and
give the next step, which is something to find out, something to do, or the answer. Whoever runs
them does the step and asks again.

- `ids`, `text`, `error`, `rpc`, `clock`, `table`: identifiers, texts, errors, time, and a map with
  a view.
- `worker`: registration, heartbeats, liveness and block reports of workers (`manager`, with its
  model in `model` and its laws in `laws`), the requests of workers (`service`), leases for full
  reports, commands for workers, and repair (queue, orphans, planner).
- `service`: the guards of a node, filesystem requests by inode (`fs_service`, `inode_service`) and
  by path (`path_service`), what they carry in and are answered (`inputs`, `replies`, `wire`),
  routing and synchronization.
- `session_registry`, `write_session`, `write_target`: sessions of writers and the blocks they are
  given.
- `state`: records of the store.
- `ufs_proxy`: file systems under the mounts.

Properties of several functions taken together are public proof functions whose names start with
`law_`. What reads the clock exists twice: with the reading as an argument, under an exact contract,
and without it.

`app/` is ordinary Rust around the library: locks, sleeping retries, stored forms, file systems, and
the loops that carry a request from step to step. `tests/` runs the library.
