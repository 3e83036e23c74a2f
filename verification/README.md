# matrix_quant_core

A Kraken spot-trading daemon whose decision logic is verified with Verus.

- `src/` is the verified library: pair naming and alphabetical pair
  selection, the bounded bar history and the index spans the indicators
  read, candle time bucketing, order-entry gates, cooldowns and timers,
  websocket message routing, and request signing (with the base64, SHA-2,
  HMAC and form-encoding crates behind trusted wrappers in `src/crypto.rs`).
- `app/` is the daemon around it: HTTP and websocket I/O, configuration
  files, the task wiring, and everything computed in floating point
  (indicator values, order books, position sizing, stop prices and exits).
- `tests/` exercises the library on concrete values.
