# v210gl

GPU conversion between 10-bit 4:2:2 v210 video and RGBA for GStreamer, and
the MXL (Media eXchange Layer) input and output blocks that use it.

The v210 bytes are handed to the GPU unchanged, read as an `RGB10A2_LE`
texture whose width is the proxy width (`ceil(width / 48) * 32`): a proxy row
has exactly the bytes of a v210 row.

## Layout

- `src/` — the verified library (Verus):
  - `v210` — the v210 word and frame layout, with pack/unpack and their
    round-trip laws;
  - `caps`, `proxy`, `pack` — caps rewriting and negotiation of the proxy,
    unproxy and pack elements;
  - `color`, `properties`, `bins` — matrix and range selection, the colour
    properties shared by the elements, and what the public bins pass on;
  - `mxl`, `blocks`, `definitions` — the MXL block settings, the element plans
    the blocks are built from, and their palette entries;
  - `text` — the string helpers the rest relies on.
- `tests/` — tests of the library on concrete values.
- `app/` — the GStreamer plugin around the library: element subclasses, the
  GL shader code, floating-point colour maths, and the code that turns block
  plans into elements.
