# clob_ws

Message types and message selection for the CLOB WebSocket channels, verified with Verus.

- `src/interest.rs`: `MessageInterest`, the bit flags that say which events a subscriber wants,
  and the mapping from an `event_type` name to its flag.
- `src/messages.rs`: the messages of the market and user channels, `WsMessage`, and the
  filter that keeps the messages of interest in their order.
- `src/shape.rs`: the shape of a frame (one object or a batch, and its `event_type`), the
  decision of what to decode, and the selection of the messages a frame yields.
- `src/subscription.rs`: the subscription request and the credentials it carries.
- `src/laws.rs`: proofs that hold across these (names and flags agree, a single frame and a
  batch select the same messages, narrowing the interest only removes messages, properties of
  the filter).
- `app/`: the serde encodings of the types, the first look at a frame (a serde `Visitor`),
  and `parse_if_interested`, which decodes frames.
