# Fixed-capacity vectors, verified with Verus

`NoResizableVec<T>` is a vector whose capacity is fixed when it is built
(`new` gives room for 10 items, `with_capacity` for any number; zero-sized items
get no slot). It never grows: `push` and `insert` need a free slot, and every
operation keeps the capacity.

- `src/no_resizable_vec.rs` — the vector, its iterator `IntoIter`, and the
  `Clone`, `Index`, `Deref` and `IntoIterator for &NoResizableVec` impls, each
  with a contract over the items as a `Seq<T>` and the capacity.
- `src/laws.rs` — properties that relate several operations: `pop` undoes
  `push`, `remove` undoes `insert`, the iterator hands items out in order, and
  inserting at a search position keeps sorted items sorted.
- `tests/` — tests on concrete values.
- `app/` — unverified conveniences: building from any iterator, the
  `cvt_no_resizable_vec!` macro, and calls that check each precondition first
  and panic where it fails.
