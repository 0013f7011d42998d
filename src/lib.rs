//! Configuration, colour and font handling around an SVG rasteriser.
//!
//! A render call takes a document and an optional configuration payload. The
//! payload is resolved into a fully populated [`options::JsOptions`], the
//! background colour is parsed, a font database is assembled, and the
//! rasteriser is handed the result.
pub mod value;
pub mod options;
pub mod message;
pub mod laws;
pub mod fonts;
pub mod color;
pub mod render;
