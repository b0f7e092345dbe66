# lazy_vec

`LazyVec<T>` is a `Vec`-shaped container for many small vectors: its handle takes 16 bytes on
64-bit targets, where `Vec` takes 24, and a new container owns no heap memory. That the handle takes
16 bytes is shown by the test `size`, not proved. It holds at most 255 elements. A container with
capacity keeps the header of its buffer on the heap, so what is saved is saved in containers that
stay empty.

The capacity that the contracts speak of is the room that was last asked for. What the allocator
gave is not part of what is proved.

The library in `src/` is verified with Verus:

- `lazy_vec.rs`: the container and its operations.
- `into_iter.rs`: the owning iterator.
- `view.rs`: the elements and the capacity as a mathematical value, and what each operation makes
  of it. The contracts are stated in these terms.
- `capacity.rs`: how much room is allocated.
- `laws.rs`: what holds of several operations together.
- `slice_iter.rs`: what is taken on trust of iterators of the standard library, and what it means
  that an iterator announces a number of items.

Verified operations have preconditions in place of panics. `app/` wraps the container for ordinary
Rust code: it tests those conditions, panics where they fail, and implements the traits that need
panics or formatting (`Index`, `Extend`, `FromIterator`, `Debug`, `ShrinkToFit`).
