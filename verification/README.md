# bybit_trader

A trading bot for Bybit linear futures, split in two.

- `src/` is the verified library (Verus): the table of tradable USDT
  contracts and their last four adjusted prices and order sizes
  (`contracts`, `state`, `instruments`), the reading of ticker pushes
  (`ticker`), the order bodies and their HMAC-SHA256 signatures (`orders`,
  `signing`, `json`), the public-stream messages (`stream`) and the plan
  for a news-driven trade (`news`).
- `app/` is the program around it: HTTP and WebSocket I/O with `reqwest`
  and `tokio-tungstenite`, timers and tasks, the lock around the shared
  state, and the floating-point price arithmetic.
