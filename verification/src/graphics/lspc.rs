//! The LSPC, which owns video memory and its register window.
use vstd::prelude::*;

verus! {

/// Words of video memory.
pub const VRAM_WORDS: usize = 0x8800;

/// The video chip's state that the processor can reach.
#[derive(Debug)]
pub struct Lspc {
    pub vram: Vec<u16>,
    /// Where the data register reads and writes.
    pub address: u16,
    /// Added to the address after a data write.
    pub modulo: u16,
    /// The last value written to the control register.
    pub control: u16,
    /// The word at the address, latched when the address changes.
    pub read_buffer: u16,
    /// The reload value of the line timer.
    pub timer: u32,
    /// The interrupt sources acknowledged and not yet taken off by the caller.
    pub irq_ack: u16,
    /// The line being displayed.
    pub scanline: u16,
    pub auto_animation_counter: u32,
    pub auto_animation_disabled: bool,
}

/// The chip as a mathematical value.
#[verifier::ext_equal]
pub ghost struct LspcState {
    pub vram: Seq<u16>,
    pub address: u16,
    pub modulo: u16,
    pub control: u16,
    pub read_buffer: u16,
    pub timer: u32,
    pub irq_ack: u16,
    pub scanline: u16,
    pub auto_animation_counter: u32,
    pub auto_animation_disabled: bool,
}

impl View for Lspc {
    type V = LspcState;

    open spec fn view(&self) -> LspcState {
        LspcState {
            vram: self.vram@,
            address: self.address,
            modulo: self.modulo,
            control: self.control,
            read_buffer: self.read_buffer,
            timer: self.timer,
            irq_ack: self.irq_ack,
            scanline: self.scanline,
            auto_animation_counter: self.auto_animation_counter,
            auto_animation_disabled: self.auto_animation_disabled,
        }
    }
}

/// The word at `address`; zero past the end of video memory.
pub open spec fn vram_at(vram: Seq<u16>, address: u16) -> u16 {
    if (address as int) < vram.len() {
        vram[address as int]
    } else {
        0
    }
}

/// The address after a data write: the low fifteen bits move by the modulo, the
/// top bit stays.
#[verifier::allow_in_spec]
pub fn next_address(address: u16, modulo: u16) -> u16
    returns
        (address & 0x8000) | (address.wrapping_add(modulo) & 0x7FFF),
{
    (address & 0x8000) | (address.wrapping_add(modulo) & 0x7FFF)
}

impl LspcState {
    pub open spec fn wf(self) -> bool {
        self.vram.len() == VRAM_WORDS
    }

    /// The address register written.
    pub open spec fn addressed(self, address: u16) -> LspcState {
        LspcState { address, read_buffer: vram_at(self.vram, address), ..self }
    }

    /// The data register written: the word is stored, and the address moves.
    pub open spec fn stored(self, value: u16) -> LspcState {
        let vram = if (self.address as int) < self.vram.len() {
            self.vram.update(self.address as int, value)
        } else {
            self.vram
        };
        LspcState { vram, ..self }.addressed(next_address(self.address, self.modulo))
    }

    /// What register `(a & 0xE)` reads as.
    pub open spec fn register(self, a: u16) -> u16 {
        match (a >> 1) & 7 {
            2 => self.modulo,
            3 => (self.scanline << 7) | ((self.auto_animation_counter & 7) as u16),
            _ => self.read_buffer,
        }
    }

    /// The state after a word is written to register `(a & 0xE)`.
    pub open spec fn register_written(self, a: u16, value: u16) -> LspcState {
        match (a >> 1) & 7 {
            0 => self.addressed(value),
            1 => self.stored(value),
            2 => LspcState { modulo: value, ..self },
            3 => LspcState {
                control: value,
                auto_animation_disabled: value & 8 != 0,
                ..self
            },
            4 => LspcState {
                timer: (self.timer & 0xFFFF) | ((value as u32) << 16),
                ..self
            },
            5 => LspcState { timer: (self.timer & 0xFFFF_0000) | (value as u32), ..self },
            6 => LspcState { irq_ack: self.irq_ack | (value & 7), ..self },
            _ => self,
        }
    }

    /// A byte read gives one half of the register, the high one at even
    /// addresses.
    pub open spec fn register_byte(self, a: u16) -> u8 {
        let w = self.register(a);
        if a % 2 == 0 {
            (w >> 8) as u8
        } else {
            w as u8
        }
    }

    /// A byte write repeats the byte in both halves of the register.
    pub open spec fn register_byte_written(self, a: u16, value: u8) -> LspcState {
        self.register_written(a, ((value as u16) << 8) | (value as u16))
    }
}

impl Lspc {
    pub open spec fn wf(&self) -> bool {
        self@.wf()
    }

    pub fn new() -> (l: Lspc)
        ensures
            l.wf(),
            l@ == (LspcState {
                vram: Seq::new(VRAM_WORDS as nat, |i: int| 0u16),
                address: 0,
                modulo: 0,
                control: 0,
                read_buffer: 0,
                timer: 0,
                irq_ack: 0,
                scanline: 0,
                auto_animation_counter: 0,
                auto_animation_disabled: false,
            }),
    {
        let vram: Vec<u16> = vec![0u16; VRAM_WORDS];
        assert(vram@ =~= Seq::new(VRAM_WORDS as nat, |i: int| 0u16));
        Lspc {
            vram,
            address: 0,
            modulo: 0,
            control: 0,
            read_buffer: 0,
            timer: 0,
            irq_ack: 0,
            scanline: 0,
            auto_animation_counter: 0,
            auto_animation_disabled: false,
        }
    }

    fn set_address(&mut self, address: u16)
        requires
            old(self).wf(),
        ensures
            final(self).wf(),
            final(self)@ == old(self)@.addressed(address),
    {
        self.address = address;
        self.read_buffer = if (address as usize) < self.vram.len() {
            self.vram[address as usize]
        } else {
            0
        };
    }

    pub fn read_register_word(&self, a: u16) -> (v: u16)
        ensures
            v == self@.register(a),
    {
        match (a >> 1) & 7 {
            2 => self.modulo,
            3 => (self.scanline << 7) | ((self.auto_animation_counter & 7) as u16),
            _ => self.read_buffer,
        }
    }

    pub fn read_register_byte(&self, a: u16) -> (v: u8)
        ensures
            v == self@.register_byte(a),
    {
        let w: u16 = self.read_register_word(a);
        if a % 2 == 0 {
            (w >> 8) as u8
        } else {
            w as u8
        }
    }

    pub fn write_register_word(&mut self, a: u16, value: u16)
        requires
            old(self).wf(),
        ensures
            final(self).wf(),
            final(self)@ == old(self)@.register_written(a, value),
    {
        match (a >> 1) & 7 {
            0 => {
                self.set_address(value);
            }
            1 => {
                let address: u16 = self.address;
                if (address as usize) < self.vram.len() {
                    self.vram.set(address as usize, value);
                }
                let next: u16 = next_address(address, self.modulo);
                self.set_address(next);
            }
            2 => {
                self.modulo = value;
            }
            3 => {
                self.control = value;
                self.auto_animation_disabled = value & 8 != 0;
            }
            4 => {
                self.timer = (self.timer & 0xFFFF) | ((value as u32) << 16);
            }
            5 => {
                self.timer = (self.timer & 0xFFFF_0000) | (value as u32);
            }
            6 => {
                self.irq_ack = self.irq_ack | (value & 7);
            }
            _ => {}
        }
    }

    pub fn write_register_byte(&mut self, a: u16, value: u8)
        requires
            old(self).wf(),
        ensures
            final(self).wf(),
            final(self)@ == old(self)@.register_byte_written(a, value),
    {
        self.write_register_word(a, ((value as u16) << 8) | (value as u16));
    }
}

/// A word stored through the data register is read back after the address
/// register is set to the same place again.
pub proof fn stored_word_reads_back(s: LspcState, address: u16, value: u16)
    requires
        s.wf(),
        address < VRAM_WORDS,
    ensures
        s.addressed(address).stored(value).addressed(address).read_buffer == value,
        s.addressed(address).stored(value).addressed(address).vram == s.vram.update(
            address as int,
            value,
        ),
{
}

}
