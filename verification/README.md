# pitgo

Domain and application rules of a vehicle-service platform, verified with
Verus.

- `src/` — the verified library:
  - `customer`, `vehicle`, `vehicle_ownership`, `customer_contact_book`:
    aggregates. Each command raises exactly one event and advances the
    aggregate version by one, or leaves the aggregate untouched; every
    aggregate's version equals the number of events it has raised, and its
    buffer holds the latest of them in order.
  - `application`: use-case handlers and the repository traits they call.
  - `backend`: how application errors are shown to API clients, and wire
    values.
  - `persistence`: the optimistic-locking verdict and the "vehicle is
    occupied" question that repository adapters answer.
  - `time`, `ids`, `aggregate`, `event`, `text`: shared building blocks.
- `tests/` — tests of the library.
- `app/` — the HTTP server (axum): routing, JSON, in-memory repository
  adapters and the clock.
