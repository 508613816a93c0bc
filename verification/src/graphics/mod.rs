//! Video: the LSPC, the palette ladder and the line renderer.
pub mod fix;
pub mod frame;
pub mod layer_laws;
pub mod lspc;
pub mod palette_lut;
pub mod png;
pub mod sprite_laws;
pub mod sprites;
pub mod tiles;
pub mod video;
