# gpui_text

Text for user interfaces: fonts, glyph rasters, styled runs and text input, with contracts that
Verus proves.

- `src/` is the library. Its functions are verified against their contracts, but for the few that
  do nothing but call a font crate.
  - `input` converts offsets between UTF-8 and UTF-16 and hands text input on to views.
  - `text_system`, `window_text_system` and `parley_text_system` answer for fonts, measurements,
    rasters and layouts, and remember what platforms answered.
  - `catalog`, `store`, `design`, `color_glyphs` and `bitmap_location` find faces, store their
    instances, place them in their design space and tell their color artwork.
  - `swash_rasterizer`, `mac_rasterizer`, `mac_geometry`, `native_face` and `glyph_compositor` plan
    the drawing of glyphs and finish what was drawn; `sfnt` takes faces out of font collections,
    and `sfnt_laws` says what of a face that keeps.
  - `font`, `text_run`, `hashing`, `raster`, `geometry`, `scalar`, `double` and `text_order` hold
    and compare the values.
  - `style_transitions` and `motion_info` move style properties between values.
  - `blob`, `face`, `catalog` and `swash_rasterizer` call the font crates. What is believed of
    those calls stands above each of them.
- `app/` is ordinary Rust around it: floating-point arithmetic, locks, messages, serialization and
  the platforms' own font and graphics calls.
- `tests/` runs the library with real fonts.

Floating-point numbers are held by their encodings; whoever uses the library supplies their
arithmetic.
