//! The core of a Neo Geo: its two processors, its sound and video chips, the
//! memory between them, and what a frontend hands in and takes out.
//!
//! Every function states what it returns and changes over a mathematical model of
//! the hardware, and is proved to do so.
pub mod audio;
pub mod bits;
pub mod cpu;
pub mod graphics;
pub mod host;
pub mod memory;
pub mod text;

pub use audio::ym2610;
pub use graphics::lspc;
pub use graphics::palette_lut;
pub use graphics::video;
pub use memory::bus;
pub use memory::bus::NeoGeoBus;
pub use memory::upd4990a;
