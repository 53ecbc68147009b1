# rock_wire

Shared wire types of ROCK, a runtime for Lua-scripted multiplayer worlds:
world snapshots, entity data, player keys, auth tickets, and the Farcaster
API and webhook shapes.

- `src/` is the library, verified with Verus. It holds the types that carry
  no floating point or JSON values, and all the logic: packing player keys
  (`player`), reading the Farcaster id of a ticket (`auth`), decimal parsing
  and rendering (`decimal`), the names of the Farcaster kinds (`farcaster`),
  the query strings of Farcaster requests (`query`), webhook event types
  (`webhook`) and the decoding of `fid` fields (`fid_value`).
- `app/` is ordinary Rust around it: each library type again with its serde
  (and strum) derives, conversions both ways, the custom deserializers that
  call the library's decoding, and the types that hold floating point or JSON
  values.
- `tests/` runs the library on concrete values.
