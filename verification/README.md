# tslink

Represents Rust types as TypeScript types: reads Rust items (structs, enums,
functions, `impl` blocks, constants) into a registry of entities and renders
them as `.ts` interfaces, a `lib.d.ts` declaration file, the `lib.js` glue of a
node module and its `package.json`.

The library under `src/` is verified with Verus: every public function states
in its contract what it returns or changes, and the properties that span
several operations are proved as public proof functions in `src/laws.rs` and
`src/render_laws.rs`.

Layout:

- `src/nature/` — the model of entities and types (`Nature`), the registry
  (`Natures`), and the syntax model that items are read from.
- `src/reader/` — reading items into the registry, with the rewriting planned
  for functions bound to JSON.
- `src/context/`, `src/args.rs` — the arguments of `#[tslink(...)]`.
- `src/config/` — settings read from the text of `Cargo.toml`, parsed with `toml`.
- `src/interpreter/` — the renderers of `.ts`, `.d.ts` and `.js` text.
- `src/modificator.rs` — the rewriting plans of exported functions.
- `src/types/`, `src/defs/` — a compact type model of structs, enums and functions.
- `app/` — the attribute itself: reading `syn` items into the syntax model,
  reading the `Cargo.toml` file and the environment, carrying out the rewriting plans,
  and writing the generated files.
