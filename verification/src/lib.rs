//! Icon acquisition and caching: pixel-format conversion, transparent-border
//! cropping, the icon cache, and the decisions of the extraction fallback chain.

pub mod cache;
pub mod crop_laws;
pub mod error;
pub mod extract;
pub mod extract_laws;
pub mod names;
pub mod normalize;
pub mod pixel;
pub mod raster;
pub mod request;
pub mod service;
pub mod url_file;
