# kode

The decision logic of Kode's desktop updater and sync-server deployment,
verified with Verus.

- `src/updates.rs`, `src/version.rs`, `src/prerelease.rs`: which GitHub release an update check
  offers on the stable or beta channel, when it is pending, and how its
  manifest is located and checked; the documented pre-release order and
  its order laws.
- `src/deploy.rs`, `src/docker.rs`, `src/standalone.rs`, `src/remote_dir.rs`,
  `src/shell.rs`: validation of a deployment request, the ordered ssh/scp
  actions with their progress messages, retrying health probes and the
  judgement of the public health answer.
- `src/runtime_context.rs`: whether a process is a Kode-managed CLI session.
- `src/text.rs`: character-level helpers used by all of the above.
- `app/`: the I/O around the library (GitHub and health requests, ssh/scp,
  environment and file-system lookups), written against traits for the
  desktop shell's services.
