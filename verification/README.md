# divviup_api

The core of the Divvi Up API server — the service that lets accounts register
DAP aggregators and create privacy-preserving measurement tasks on them —
written in Verus. The contracts of the public functions state what they
compute and are proved; what rests on chance or the clock (fresh keys, ids,
nonces and times) is left open, with what holds of every outcome stated.

## Layout

- `src/` — the library, verified by Verus.
  - Entities and the requests that change them: `account`, `aggregator`,
    `api_token`, `credentials`, `task`, `new_task`, `update_task`.
  - Value sets an aggregator advertises: `feature`, `vdaf_id`, `vdaf_name`,
    `query_type_id`, `query_type_name`, over the generic `item_set`;
    `name_order` is the order in which name sets are listed.
  - Task parameters: `vdaf`, `dp_strategies`, `aggregator_vdaf`.
  - Talking to aggregators: `api_types`, `provision` (requests and the checks
    of their answers), `task_pager` (walking paged task ids), `client` (the
    first version of the aggregator API).
  - Security: `crypter` (AES-128-GCM sealing of secrets at rest, with key
    rotation), `net` and the URL checks in `aggregator` (refusing aggregators
    on private addresses), `api_token` (token texts and hashes).
  - Settings: `config`, `auth0`.
  - `validation` holds the error lists that every rule check returns.
- `tests/` — tests of the library on concrete values.
- `app/` — the program around the library: reading settings from the
  environment, resolving host names, driving the steps of requests to
  aggregators, and JSON forms of API values.

Outside crates are reached through small trusted wrappers whose contracts
name what the crate computes: `url` (URL parsing), `aes-gcm` (sealing),
`base64`, `sha2`, `subtle`, `uuid`, `rand`, `time` (the clock), `prio`
(chunk lengths) and `validator` (e-mail addresses).
