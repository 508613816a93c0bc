pub mod m68k;
pub mod z80;
