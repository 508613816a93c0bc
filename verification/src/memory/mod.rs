//! The main processor's bus and what hangs on it.
pub mod upd4990a;
pub mod prot;
pub mod pcm2;
pub mod bus;
pub mod laws;
