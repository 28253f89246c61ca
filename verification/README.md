# reth_custom_db

Entity storage for a reth node, verified with Verus.

- `src/` is the verified library:
  - `db`: the backend choice (`DbType`), the entity table's key and value
    types with their byte encodings, the layout of entities as MDBX rows
    (UTF-8 on write, lossy UTF-8 on read, with the round trip proved), and
    the entity and block events.
  - `cmd`: the `entity-export` and `entity-import` commands: which database
    they open and the JSON document they write or read.
  - `rpc`: the internal-error object, the decision procedure of an event
    subscription (key filter, delivery, shutdown) with its laws, and the
    block event published for a change of the canonical chain.
- `app/` is the node program around it: the command line, SQLite and MDBX
  access, the broadcast channel, and the async loops that perform what the
  library decides.
- `tests/` runs the library on concrete values.
