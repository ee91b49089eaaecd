# pale

A reconnecting, subscription keeping, clonable JSON-RPC 2.0 websocket client.

- `src/` is the verified library (Verus). It holds the protocol messages and
  every decision of the client, each with a contract:
  - `types`: the JSON-RPC messages (requests with fresh random UUIDs,
    notifications, responses, error objects) and the close signal;
  - `request`: matching the server's replies to a waiting request;
  - `subscription`: which notifications a subscription hands out, and when it
    ends;
  - `routing`: what the connection does with each websocket frame;
  - `supervisor`: the connection loop's reconnect / retry / give-up /
    shutdown decisions, with its laws (reconnection budget, reconnection
    announcements, shutdown on close), the connection gates, and the step of
    waiting for a connection state;
  - `config`: the client's settings and the websocket handshake request;
  - `outside`: the declarations of the outside types and the trusted wrappers
    of the outside functions the library calls.
- `app/` is the async client built on it: the websocket, the tokio channels
  and tasks, serde's (de)serialisation of the messages, and the error type with
  its messages.
- `tests/` exercises the library on concrete values.
