# backend

The core of a household and inventory backend, verified with Verus.

- `src/` is the verified library:
  - `households/`: the household domain (ids, names, kinds, roles, events), the
    in-memory household store with its model (`HouseholdStore`) and the laws it keeps
    (`laws.rs`), the access policy, the per-household broadcast channels, the naming of
    server-sent events, the conversions of stored rows and database refusals, and the
    use cases as sequences of decision steps (`application/`).
  - `inventory/`: items, categories, priorities and stock events, the item and
    stock-history read models and their stored rows, the stock-change records and
    failure explanations, the API request and response values, and the use cases.
  - `accounts.rs`, `devices.rs`, `shared.rs`: users, devices, and what the modules share
    (text helpers, the clock and random identifiers).
- `tests/` runs the library on concrete values.
- `app/` is the asynchronous edge: the store and event ports as async traits, the
  in-memory, broadcast and Postgres adapters, the drivers that run each use case's
  verified steps against the ports, the JSON shapes of the API, and the event stream.

Each use case is split into steps: a step takes what the previous call returned and
either fails the use case or names the next call. The steps carry exact contracts; the
drivers in `app/` only make the calls.

## The in-memory household store

`InMemoryHouseholdRepository` keeps its households and memberships in two vectors
whose keys never repeat (`keys_unique`), and its view reads them as maps
(`keyed_map`): households by id, memberships by the pair of household and user id.
Every contract of the store speaks of that map view (`HouseholdStore`), never of
positions. Vectors rather than hash maps, for two reasons: a membership is keyed by a
pair of identifiers, where vstd's hash-map specifications are given for plain keys,
and the listings (members of a household, households of a user) walk the whole store,
which a hash map does in an order it leaves open and vstd does not describe. Over a
vector each walk is a loop with an invariant, so the listings are proved to give
exactly the members, or the households, that the map view holds.
