# inevents

Servers for blockchain events: an HTTP API over stored events, a websocket
API that streams live events through subscriber filters, and a copier from
Redis event streams into PostgreSQL.

Layout:

- `src/` — the verified library (Verus): the JSON model and filter language
  of subscriptions, the event catalogue with its realtime filters, query
  pagination and the OHLC endpoint's request and candles, the decisions of
  the three servers, the Redis stream bookkeeping, the client's reactions,
  and the choice of modules from the command line.
- `tests/` — tests of the library.
- `app/` — the program around it: command line, database and Redis access,
  the actix servers and the websocket client loop.

Running `inevents [module]...` starts `http-server`, `websocket-server`,
`redis-to-postgres`, or `all` of them, for the events described in the JSON
file named by `EVENTS_FILE` (default `events.json`). The servers read
`DATABASE_URL`, `REDIS_URL`, `HTTP_BIND_ADDRESS` and `WEBSOCKET_BIND_ADDRESS`;
`SSL` (a certificate chain file and a PKCS#8 key file, separated by a
comma) makes both servers listen with TLS.
