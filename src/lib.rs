//! Batch conversion of game screenshots: layered option resolution and a
//! verified image transform pipeline (region blur, crop, resize).

pub mod enums;
pub mod config;
pub mod options;
pub mod raster;
pub mod transform;
pub mod pipeline;
pub mod dispatch;
pub mod text;
pub mod layout;
