# backend

The logic of a European rail-network booking service, verified with Verus:
searching journeys of up to three trains between cities with filters and
orders, booking trips, listing a traveller's ongoing or past trips, reading the
route table, and shaping the replies of the HTTP API.

Layout:

- `src/` — the verified library.
  - `city.rs`, `train_day.rs` — cities, kinds of train and days, with their
    names, parsing, and the proof that no two share a name.
  - `time.rs` — times of day, time spans, dates; the calls into chrono.
  - `route.rs`, `route_table.rs` — routes, route numbers, and reading a row of
    the route table.
  - `itinerary.rs` — itineraries and what `addRoute` keeps.
  - `index.rs` — the city index used by the search.
  - `rail_network.rs` — the search, and the laws that its results are exactly
    the journeys that answer the request.
  - `search_functionality.rs` — the earlier search over route indices, with
    the same kind of laws.
  - `booking.rs` — tickets, trips, route lookups, booking and listing trips.
  - `domain.rs`, `handler.rs` — requests and replies of the HTTP API.
  - `seq_util.rs`, `text.rs` — sequences, stable sorting, text and numbers.
- `tests/` — tests of the library on concrete values.
- `app/` — the server: HTTP handlers (axum), the database (sqlx), reading the
  route table file (csv), and the serde copies of the library's types.
