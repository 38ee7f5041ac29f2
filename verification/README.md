# polymarket_client

A client of the Polymarket exchange whose logic is proved with Verus.

- `src/` is the verified library. It decides; the network, the chain and the
  websockets are left to `app/`.
  - `text`, `primitives`: decimal and hexadecimal notation, 256-bit numbers,
    hashes, addresses.
  - `encoding`, `json`, `clock`: base64, keyed hashes, URLs, JSON, the calendar,
    the clock and chance, each behind a small trusted function.
  - `client::api`: authenticated requests, retries, lists in pages.
  - `client::contract`, `client::order`: contract calls, approvals, orders and
    what is signed for them.
  - `client::types`: the exchange's messages and markets.
  - `client::ws`: channels, shared connections, which receiver gets what.
- `app/` performs what the library decides: HTTP, websockets, signatures,
  transactions, JSON of whole messages, and floating-point arithmetic.
- `tests/` runs the library with the outside crates linked.

The library is designed around a plain wallet, an externally owned account, and
not the Safe wallet that the exchange's web interface deploys. Positions of a
plain wallet do not appear in that interface.
