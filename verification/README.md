# show-me-logs

A service that tails a PingOne/ForgeRock logs API, indexes the transaction
ids it sees, announces new transactions to websocket clients and serves the
logs of a transaction, filtered by severity.

- `src/` is the verified library (Verus):
  - `transaction.rs`: transaction ids, websocket messages, and the rolling
    list of the most recent distinct transaction ids (at most 50, no
    duplicates, oldest evicted first), with its laws.
  - `logs.rs`: the log model and the severity filter, with its laws.
  - `requests.rs`: the logs API requests and the query filters for a script
    or a journey node.
  - `index.rs`: the search-index schema (field options included) and the
    documents written to it, over tantivy.
  - `watcher.rs`: what the watcher takes from each page and each log line
    (the 36-byte transaction key, the journey, the next cookie) and which
    transactions it registers and announces, in order.
- `tests/` runs the library on concrete values.
- `app/` is the server around it: HTTP handlers, the websocket relay, the
  background watcher loop, the calls to the logs API and the JSON shapes.
