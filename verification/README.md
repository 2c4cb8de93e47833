# asic_rs

A miner management library whose decision logic is verified with Verus.

`src/` is the verified library:

- `error_codes` — WhatsMiner error-code decoding and descriptions.
- `errors` — model-selection and RPC errors, and which RPC failures are transient.
- `hardware`, `models` — model names, hardware counts and control-board parsing.
- `hashrate` — hash-rate units, their names and multipliers.
- `pool` — pool schemes, pool URLs, reported pools and pool configurations.
- `rpc` — status checks, cleanup and framing of RPC replies.
- `json` — the parsed JSON value and the string members read from JSON texts.
- `discovery`, `firmware` — the firmware-discovery state machine and identification.
- `nerdaxe`, `antminer`, `braiins` — firmware-specific data locations, pool and
  message parsing, upload bodies and session cookies.
- `device` — device identity, messages and modes.
- `text` — verified string helpers (trimming, matching, decimal formatting).

`app/` holds the network I/O (TCP RPC, HTTP with digest auth), the discovery loop
that drives the verified state machine, credentials, and the types that carry
floating-point values.
