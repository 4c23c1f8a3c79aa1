# sharp

An image-processing pipeline in the style of the Node.js `sharp` module, on
top of libvips. The settings, option checks and integer decisions of the
pipeline are a library verified with Verus; libvips does the pixel work.

## Layout

- `src/` — the verified library (`sharp`):
  - `input.rs`, `pipeline.rs`, `composite.rs`: describing inputs and building
    a pipeline's settings;
  - `resize.rs`, `geometry.rs`, `plan.rs`: resize, extract, extend, rotate
    and trim settings, crop and embed positions, and the integer steps of a
    run (pages, orientation, canvas, tiling, animation);
  - `operations.rs`, `colour.rs`: image operation settings and colours;
  - `output.rs`, `format.rs`, `metadata.rs`, `suffix.rs`, `writer.rs`:
    output format options, metadata settings, deep-zoom suffixes and the
    choice of encoder;
  - `icon.rs`, `icon_check.rs`, `bytes.rs`: the ICO/CUR container, encoded
    and decoded, with entry points that refuse truncated data;
  - `image_type.rs`, `loading.rs`, `info.rs`, `text.rs`: image types,
    loader decisions, output reports and text helpers.
- `app/` — the `Sharp` type that callers use: it keeps the settings with
  fractions or libvips types beside the library's, runs the pipeline with
  libvips (`rs-vips`) and reads and writes files.
- `tests/` — tests of the library.
