# zngur_autozng

The verified core of a small rustc-driver utility that prints what it finds
in a crate: its data types with their layouts, variants and fields, its
trait impls, and its items with docs and signatures.

- `src/report.rs`: the report model and the rendering of every printed line.
- `src/ctx.rs`: the per-definition caches for visibility and doc comments.
- `src/text.rs`: decimal rendering, prefix trimming and joining, with laws.
- `src/example.rs`: the example type the utility is exercised on.
- `app/`: the compiler driver that reads the crate and prints the report.
