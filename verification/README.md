# vrcx_application

The application layer of the VRCX desktop client, written in Verus: the
normalisation of VRChat payloads, the batch runners for group and note
requests, print favourites and cleanup, community themes, the database
upgrade runner's decisions, the background image rules and the telemetry
privacy filters. The public functions state in `ensures` what they
return, and Verus proves it. Where the answer comes from a store port,
the session or a flag shared between threads, the contract says what holds
of every answer (or nothing, where nothing can be said: the saved-group
snapshot and delete, the auto-delete switch read, the favourite write, and
the profile operation gate).

Layout:

- `src/` — the verified library. `text`, `json`, `numbers`, `hashing` and
  `vrchat_ids` hold the shared models and helpers; `social`, `profile`,
  `remote`, `system` and `telemetry` follow the services of the client.
  The calls into `serde_json`, `regex`, `sha2`/`hex`, `chrono`, `fastrand`,
  `getrandom`/`uuid`
  and std that Verus cannot read sit behind small wrappers whose contracts
  are documented where they stand.
- `tests/` — tests of the library on concrete values.
- `app/` — the asynchronous side, for the services whose outside calls
  can be made here: the request loops of the group batches, the groups
  overview, the group calendar, the user dialog tab counts, the note
  export, the print cleanup, the moderation refresh and update, the
  mutual-friends fetch and friend refresh, the social baseline refresh,
  the community theme service, the VRChat status service and the database
  upgrade runner, with the locks and caches around shared runtime state
  and the serde forms of the library's types. Every decision these loops
  take is a call into the library.
