# world_server

The game logic of a world server for the third expansion of a classic
online role-playing game, written in Verus and verified.

- `src/` is the verified library: object identifiers and their wire forms,
  the protocol's small records (movement, packed time, tutorial flags),
  the character's inventory and the placement of items, loading a stored
  character, a unit's update fields with their change mask, the objects
  in range of a character, the client and character registries, the session state machines (logout, teleports,
  cinematics, rest, first login), account data masks, addon lists, the
  item query answer and the auth server heartbeat.
- `tests/` runs the library on concrete values.
- `app/` is the program around it: sockets, the authentication handshake
  with its crypto, the message loop of the client manager and the
  heartbeat's socket.

## Data structures

Some collections are kept in `Vec`s with an invariant in place of hash
maps. vstd specifies no `retain`, `values_mut` or `iter_mut` of `HashMap`,
which the cleanup of closed connections and the ticking of every character
need, and a walk over a `HashMap` goes in an order that a per-process seed
decides, so a search by name or by character would have no answer that a
contract could fix. With a `Vec` the search order is the order of
registration:

- `ClientManager` holds its clients in a `Vec`, with no connection id twice
  (`ids_distinct`); the clients are searched in that order.
- `CharacterManager` holds the characters in play in a `Vec`, with no
  object id twice.
- `CharacterInventory` holds one `Option` per equipment slot, indexed by
  slot number, where a map from slot to item would do; `BagInventory` does
  the same for the backpack.

Loading a stored character (`character::character_database`) asks
`wow_world_base` whether its maps and zones are known and for the starter
skills and spells of its race and class; the rest is verified against
those answers.
