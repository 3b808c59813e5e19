# wasm_utils

The decision logic of four `wasm-bindgen` helper macros, verified with Verus:

- `#[derive(WasmError)]` — `From<Error> for JsValue` building a JS `Error`
  whose `name` is the type name without its `Wasm` prefix, or the name given
  by `#[wasm_error(js_name = "...")]`.
- `#[wasm_refgen(js_ref = JsFoo)]` — a duck-typed JS reference type for an
  exported struct, with `FromJsRef` and `From` conversions both ways.
- `#[js_trait(js_type = JsFoo)]` — a JS interface as a Rust trait: the
  TypeScript interface, a hidden list of the JS method names, the
  `extern "C"` bindings, the trait itself and its implementation for the
  imported type.
- `#[wasm_implements(Trait)]` — a runtime tag method, a hidden
  `impl Trait for Type` witness that makes the compiler check the Rust
  signatures, and a compile-time check that the block exports every JS
  method name of the interface.

## Layout

- `src/` — the verified library. Every input is held as a plain model
  (`src/model.rs`: attributes, signatures, types, `impl` blocks), and every
  expansion is produced as Rust source text, each with a contract that states
  the text exactly, or the refusal and its message.
  - `strings.rs` — joining, string literals, `compile_error!` text.
  - `naming.rs` — generated names; case conversions and identifier checks
    are delegated to `heck` and `syn` through trusted wrappers.
  - `attrs.rs` — reading and filtering `#[wasm_bindgen(...)]` attributes.
  - `method.rs` — receivers, argument names, the `async fn` to
    `impl Future` rewrite, and signature text.
  - `ts_types.rs` — the Rust to TypeScript type mapping.
  - `wasm_error.rs`, `refgen.rs`, `js_trait.rs`, `implements.rs` — the four
    macros, each with proof functions for the properties they promise.
- `app/` — the token-level entry points: parsing with `syn`, building the
  models, and turning the library's text back into tokens.
- `tests/` — tests on the models and on expansions of realistic sources.
