# edp

A client library for the Erlang distribution protocol (Erlang/OTP 26 and
later), with helpers for the terms Elixir nodes exchange. The protocol logic
is written in Verus and proved against its contracts.

- `src/` — the verified library: distribution flags, the handshake messages
  and state machine, length-prefixed framing, fragment reassembly, the EPMD
  request and reply codecs, control messages and their term form, pid
  allocation, the connection's decisions on what it sends and receives, the
  Elixir value types (dates, times, ranges, exceptions, GenServer terms,
  keyword and map builders) and the dispatch of GenServer and GenEvent
  messages. Calls into `erltf` (the external term format codec) and `md-5`
  stand behind trusted functions whose contracts are stated where they are
  declared; what the codec produces is named in `src/etf.rs`.
- `tests/` — tests of the library on concrete values.
- `app/` — the I/O around the library: TCP connections with `tokio`, the
  process runtime, the MapSet type, and copies of
  the value types that carry `serde` and `thiserror` derives.
