# my_im

The message formats and decisions of a small push system (clients, websocket
servers, push servers, a service registry in redis, kafka), verified with
Verus.

- `src/` the verified library: message texts and their parsing
  (`client_msg`, `client`, `ws_server`, `push_server`, `text`), the redis
  record layout (`redis_pool`), kafka settings (`kafka`), errors and gRPC
  statuses (`grpc_errors`), and the laws that tie the sides together
  (`protocol`, plus lemmas beside the functions they speak of).
- `app/` the I/O around it: redis, kafka, websockets, http heartbeats.
- `tests/` tests of the library on concrete values.
