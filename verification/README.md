# monotonic_guard

A source middleware that enforces "event time wins": an update of an element passes
through only when its timestamp is strictly newer than that of the stored version of the
same element, so delayed events never overwrite newer state.

- `src/` is the verified library (Verus): the element model, the guard's two-step
  processing of a change (`begin`, then `conclude` once the stored element has been
  looked up), the factory that checks a parsed configuration, and the laws (monotonicity
  over a sequence of updates, dropping of equal timestamps).
- `app/` plugs the guard into Drasi: serde parsing of the configuration, conversion of
  Drasi's elements into the library's, and the async lookup in the element index.
- `tests/` runs the library on concrete values.
