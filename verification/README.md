# rgb_interfaces

Typed access to RGB contracts through the RGB20, RGB21 and RGB25 interface
classes, verified with Verus.

- `src/iface_ids.rs`: the interface identifiers of each class and the test
  of class membership.
- `src/amount.rs`: supply totals (saturating sums of amounts), the maximal
  supply with its fallback to the issued supply, and the supply remaining
  after a burn, with the laws that relate them.
- `src/outside.rs`: the calls into `rgbstd` and `strict_types`, with the
  contracts the library relies on. A contract seen through an interface is
  held as `Contract`, with a model of what it holds (interface id,
  transitions, global state, identifiers); every read is stated over that
  model, and each decoding of a strict value over a name for its result.
- `src/state.rs`: values read out of a contract's global state, and what
  the model says of each field.
- `src/rgb20.rs`: the features of an RGB20 asset (renaming and inflation)
  derived from the transitions of its interface, and the RGB20 wrapper.
- `src/rgb21.rs`, `src/rgb25.rs`: the RGB21 and RGB25 wrappers. Each
  wrapper holds a contract of its class and reads what an accessor needs
  when the accessor is called; each accessor asks, in its `requires`, for
  the state whose absence makes the interface class fail.
- `app/`: rgbstd's `IfaceWrapper` for the wrappers, the accessors that take
  an `AssignmentsFilter`, and the tests that fail, with the class's own
  messages, where a contract lacks the state that an accessor reads.
