# twsearch: verified scramble logic

The decision logic of scramble generation for twisty puzzles, written in Verus: puzzle and event
identifiers, scramble seed derivation, permutation parity, Square-1 shape checks and tuple
notation, 4x4x4 wing logic and phase pattern derivation, pattern masking, transformation and inversion,
the breadth-first construction of the Square-1 phase lookup tables (with a checked entry point
that tests its inputs first), alg inversion and two-phase 3x3x3 solution assembly, move
collapsing, and the
random-move scramble builders for big cubes, clock and megaminx.

The megaminx builder is the random-move form that the project's `scramble_megaminx` keeps
disabled; that scrambler itself currently returns an empty alg after a search for the centers,
and is not part of this library.

- `src/` is the verified library. Each module states its contracts over spec functions and
  views; the laws of the library are public proof functions next to the code they are about.
  Calls into outside crates (`sha2`, `hex`, `ascii`, `rand`, `num-integer`, `cubing`) stand
  behind small trusted wrappers whose doc comments say what is assumed of them.
- `tests/` runs the library on concrete values.
- `app/` converts between the `cubing` crate's algs and patterns and the library's own, and
  holds the impls of outside traits (`rand_core::RngCore` for the seeded generator).
