# fountain_raptor_10

Raptor-10 (RFC 5053) building blocks, verified with Verus.

- `src/generator/degree_generator.rs`: `Deg[v]` (Section 5.4.4.2, Table 1),
  with the laws that tie it to the table.
- `src/generator/random_generator.rs`: `Rand[X, i, m]` (Section 5.4.4.1,
  tables V0 and V1 of Section 5.6).
- `src/cached_R10HDPC.rs`: the Raptor-10 binary HDPC precode of
  `fountain_scheme` together with a shared, write-once cache of its LU
  factorisation, and the verified decision of when a cached factorisation
  serves a code.
- `app/lib.rs`: the implementation of `fountain_engine`'s `HDPC` trait on top
  of the library.
