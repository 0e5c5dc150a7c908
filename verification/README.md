# dyn_shim

Generation of dyn-compatible shim traits. A trait that is not dyn-compatible
cannot hold a mixed set of implementors behind one `Box<dyn Trait>`; the shim
attributes build a second trait holding the dyn-compatible subset, a blanket
impl that forwards every call to the source trait, optional reflexive impls
that make the shim's objects satisfy the source trait again, and `Clone` /
`Hash` machinery for the shim's trait objects.

## Layout

- `src/` is the verified library. It computes what each attribute expands to
  from the attribute's arguments and the annotated trait, both held as plain
  values (`model`). Each public function on the model states its result
  exactly over spec functions; the functions on tokens state theirs over
  names for what `syn` reads from the tokens.
  - `tokens`: each attribute on its token input: the grammar of the
    arguments (verified) and the expansion of what was read.
  - `read`: the reads by `syn` of bounds, paths and the annotated trait
    into the model (trusted conversions).
  - `attribute`: the entry points on the model (`dyn_shim`,
    `dyn_shim_foreign`, `dyn_shim_recognized`, `trait_object`,
    `dyn_shim_bind`).
  - `expand`: the shared expansion and its laws (every method accounted for,
    a rejected bound stops the expansion).
  - `bounds`: classification of the bound list, marker combinations, the
    `reflexive` argument.
  - `select`, `visit`: which methods can be dispatched through a trait
    object, and why the others are skipped.
  - `forward`, `erase`: the forwarding definitions, `#[dyn_shim(erase)]` and
    `#[dyn_shim(boxed)]`, and the `Clone`/`Hash` machinery.
  - `reflexive`, `carrier`: reflexive impls, mount macros, the recognized and
    `trait_object` forms.
  - `emit`, `render`, `text`: documentation, signature rendering and string
    literals.
  - `dyn_hash`: the shipped `DynHash` carrier.
- `app/` is the attribute layer around it: it hands the attributes' tokens
  to the library, turns the generated text back into tokens with each
  diagnostic at its span, and ships the `DynClone` carrier.
- `tests/` runs the expansions on concrete traits and the expected behaviour
  against them.
