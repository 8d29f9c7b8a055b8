# esp_zenoh_network

The verified core of a Zenoh-based network back end for the yaair
aggregate-computing engine on ESP-IDF devices.

- `src/` (Verus): session identifiers (`zid`), entity identifiers
  (`entities`), matching status (`matching`), message packets and messages
  (`message`), the latest-message-per-peer store (`store`), the network
  context and message publisher (`network`), platform options (`platform`)
  and the plain-value form of a received query (`query`).
- `app/` (plain Rust): ESP-IDF bring-up, the serde wire format of packets,
  and the Zenoh sessions, publishers, subscribers, queryables and queriers.
