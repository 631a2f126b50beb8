# lumentix_events

The events that the Lumentix ticketing contract publishes on the Soroban host:
ticket transfers, ticket check-ins and event cancellations.

- `src/symbol.rs`: which texts fit in a short Soroban symbol.
- `src/host.rs`: the soroban_sdk types the library carries, and the one trusted
  call that publishes an event.
- `src/events.rs`: the event kinds, the topic and body each is published under,
  the `emit` functions, and the proved facts about topics and bodies.
