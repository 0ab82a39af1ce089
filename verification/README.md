# Potato Stamps

The scene logic of the Potato Stamps primitive demo, written in Verus.

- `src/scene.rs`: the seventeen primitive modes, their number-key bindings,
  the execution index catalogue that holds every mode's indices back to back,
  the per-frame draw batches that select ranges of it, and the palette bitmap
  decoder.
- `src/scene/base.rs`: the ordinary modes: vertex index helpers for the seed
  grid, the quad-strip rings and the rectangle list, and the code that fills
  each mode's catalogue range, with its contract stated over the spec
  function `catalogue_entry`.
- `src/scene/adjacency.rs`: the four degenerate adjacency placeholders.
- `src/scene/document.rs`: the tokenizer and validator of the authored scene
  document.
- `src/scene/document_text.rs`: the whitespace layout of a document (its
  tokens are its maximal non-whitespace runs, whatever whitespace separates
  them) and its printed form (a scene printed as hexadecimal bit patterns
  and decimal indices decodes back to itself).
- `src/scene/laws.rs`: properties proved across the modes, the catalogue and
  the batches (every fan stage, the quad list and the point list visit each
  seed exactly once; each fan covers its own tile of the plane; the rings
  close; batches tile their mode's range; every index addresses a vertex of
  the execution buffer; key bindings cycle; the mode labels are distinct).
- `app/`: the TRUEOS program around the library: floating-point positions,
  the counter-clockwise check of the authored stamps, and the vGPU plumbing.
