//! What the emulator hands to and takes from the machine it runs on.
pub mod ring;
pub mod aaudio;
pub mod frontend;
