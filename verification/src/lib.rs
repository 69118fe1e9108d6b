//! Text support for a GPU user interface: Unicode offsets, font faces, glyph
//! rasters and the caches around them.

pub mod bitmap_location;
pub mod blob;
pub mod cache_laws;
pub mod call_laws;
pub mod catalog;
pub mod color_glyphs;
pub mod compositor_laws;
pub mod design;
pub mod design_laws;
pub mod double;
pub mod face;
pub mod font;
pub mod font_file_laws;
pub mod function_laws;
pub mod geometry;
pub mod glyph_compositor;
pub mod hashing;
pub mod input;
pub mod key_laws;
pub mod mac_geometry;
pub mod mac_laws;
pub mod mac_rasterizer;
pub mod motion_info;
pub mod native_face;
pub mod number_laws;
pub mod operation_laws;
pub mod parley_text_system;
pub mod raster;
pub mod rasterizer;
pub mod scalar;
pub mod sfnt;
pub mod sfnt_laws;
pub mod store;
pub mod store_laws;
pub mod style_transitions;
pub mod swash_laws;
pub mod swash_rasterizer;
pub mod text_order;
pub mod text_run;
pub mod text_system;
pub mod window_text_system;
