//! Sound: the YM2610 and the sound processor's bus.
pub mod adpcm_a;
pub mod adpcm_b;
pub mod tables;
pub mod ssg;
pub mod fm_op;
pub mod fm;
pub mod fm_channel;
pub mod fm_laws;
pub mod square_laws;
pub mod tone_laws;
pub mod vrom;
pub mod counters;
pub mod ym2610;
pub mod laws;
pub mod audio_bus;
pub mod sound_cpu;
