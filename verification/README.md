# negforge_core

A 1D ballistic-MOSFET electrostatics + NEGF transport simulator, split in two:

- `src/` — the verified library (Verus): gate geometries and their gate
  counts (`geometry`), the device grid and the region of every site
  (`grid`), the shape rules and buffer growth of the tridiagonal solvers
  (`tridiag`), the iteration budget of the self-consistent loop
  (`iteration`), error kinds and their policies (`error`), and the
  Green's-function algorithm names (`algorithm`).
- `app/` — the floating-point engine (electrostatics, Landauer current,
  NEGF sweeps, charge density, the self-consistent loop's numerics, bias
  sweeps with rayon) and the PyO3 bindings, built on the library above.

`tests/` exercises the library.
