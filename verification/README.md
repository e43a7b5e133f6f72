# emscripten

WebSockets and synchronous HTTP requests on the Emscripten runtime, with the decisions verified.

- `src/` is the verified library. It never calls the runtime: what is to be called comes out as a
  value (`SocketCall`, `FetchCall`), and what the runtime answered goes in as plain values.
  - `result` reads return codes.
  - `text` handles text at the C boundary.
  - `websocket::message`, `websocket::error` and `websocket::event` are what a stream carries.
  - `websocket::stream` opens, polls, writes, closes and releases a socket.
  - `fetch` builds requests and reads responses.
- `app/` makes the calls: the C bindings, the callbacks, and the `Stream` and `Sink` impls.
- `tests/` runs the library, with real channels and byte buffers.
