# ocpp_gateway

The charge-point side of an OCPP 1.6J gateway that connects internal battery
devices to an OCPP central system, written in Verus.

- `src/` is the verified library: OCPP-J frames and actions, the message
  types, the smart-charging engine, the keys and encodings of the persistent
  store, and every decision the gateway takes between a battery and the
  central system (authorization, reservations, transactions and their
  pending stops, meter values, status reporting, boot and replay, the
  answers to the central system's calls, the supervisor's choice of device
  backend and URL). Contracts state each result exactly; the laws that span
  several functions are public proof functions named `law_*`. Times are
  whole nanoseconds since the Unix epoch (`messages::Timestamp`), so the
  charging engine sees the same instants the clock gave.
- `app/` is the program around it: configuration loading, the `sled` store,
  the MQTT device, the serde forms of the library's types, and the actors that perform the calls the
  library decides on.
- `tests/` exercises the library on concrete values.
