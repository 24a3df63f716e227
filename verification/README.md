# image_interop

Interoperability between image buffers, pixel layouts and color types, as a Verus library.

- `src/traits.rs`: the color, layout and image traits, with their contracts.
- `src/image.rs`, `src/image/`: `GenericImage` and its layouts (packed, loose, interleaved, planar).
- `src/color.rs`, `src/color/`: color spaces, components, formats, `GenericColor`.
- `src/form.rs`: image forms and the order between them.
- `src/layout.rs`, `src/pixel.rs`, `src/generic_color.rs`: the strided layout and the slice-based pixel API.
- `src/iter.rs`: images on a strided layout, and walking their pixels in storage order.
- `src/scalar_bytes.rs`: reading scalars from their memory representation.
- `app/lib.rs`: parallel pixel access on rayon's thread pool, for packed and strided images.
