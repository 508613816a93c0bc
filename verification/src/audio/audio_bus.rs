//! The sound processor's bus: program ROM behind four bank windows, a little
//! RAM, the sound chip, and the latches to and from the main processor.
use vstd::prelude::*;
use crate::audio::ym2610::{Ym2610, YmState};
use crate::cpu::z80::Z80Bus;

verus! {

/// Bytes of RAM, at the top of memory.
pub const Z80_RAM_SIZE: usize = 0x800;

/// The bus.
pub struct AudioBus {
    /// The cartridge's program.
    pub m1_rom: Vec<u8>,
    /// The built-in program, if there is one.
    pub sm1_rom: Vec<u8>,
    pub ram: [u8; Z80_RAM_SIZE],
    pub ym: Ym2610,
    /// The bank in each window: the one at F000 first, the one at 8000 last.
    pub bank_sel: [u8; 4],
    /// Whether the cartridge's program is mapped at the bottom.
    pub use_cart_audio: bool,
    /// The command from the main processor.
    pub soundlatch: u8,
    pub soundlatch_pending: bool,
    /// The reply to it.
    pub soundlatch2: u8,
    pub nmi_enable: bool,
    pub nmi_asserted: bool,
    pub trace: bool,
}

/// What the bus holds.
#[verifier::ext_equal]
pub ghost struct AudioState {
    pub m1: Seq<u8>,
    pub sm1: Seq<u8>,
    pub ram: Seq<u8>,
    pub ym: YmState,
    pub banks: Seq<u8>,
    pub cart: bool,
    pub latch: u8,
    pub pending: bool,
    pub reply: u8,
    pub nmi_enable: bool,
    pub nmi_asserted: bool,
    pub trace: bool,
}

impl View for AudioBus {
    type V = AudioState;

    open spec fn view(&self) -> AudioState {
        AudioState {
            m1: self.m1_rom@,
            sm1: self.sm1_rom@,
            ram: self.ram@,
            ym: self.ym@,
            banks: self.bank_sel@,
            cart: self.use_cart_audio,
            latch: self.soundlatch,
            pending: self.soundlatch_pending,
            reply: self.soundlatch2,
            nmi_enable: self.nmi_enable,
            nmi_asserted: self.nmi_asserted,
            trace: self.trace,
        }
    }
}

/// The byte of a ROM; all ones past its end.
pub open spec fn rom_at(rom: Seq<u8>, off: int) -> u8 {
    if off < rom.len() {
        rom[off]
    } else {
        0xFF
    }
}

fn rom_byte_at(rom: &Vec<u8>, off: usize) -> (v: u8)
    ensures
        v == rom_at(rom@, off as int),
{
    if off < rom.len() {
        rom[off]
    } else {
        0xFF
    }
}

/// Where a bank begins: windows of 2, 4, 8 and 16 KiB, of which 128, 64, 32 and
/// 16 can be chosen.
pub open spec fn bank_offset(region: int, bank: u8) -> int {
    if region == 0 {
        0x800 * (bank as int % 128)
    } else if region == 1 {
        0x1000 * (bank as int % 64)
    } else if region == 2 {
        0x2000 * (bank as int % 32)
    } else {
        0x4000 * (bank as int % 16)
    }
}

/// The window that an address from 8000 to F7FF lies in.
pub open spec fn window_of(addr: u16) -> int {
    if addr < 0xC000 {
        3
    } else if addr < 0xE000 {
        2
    } else if addr < 0xF000 {
        1
    } else {
        0
    }
}

/// The first address of a window.
pub open spec fn window_start(region: int) -> int {
    if region == 3 {
        0x8000
    } else if region == 2 {
        0xC000
    } else if region == 1 {
        0xE000
    } else {
        0xF000
    }
}

impl AudioState {
    pub open spec fn wf(self) -> bool {
        &&& self.ram.len() == Z80_RAM_SIZE
        &&& self.banks.len() == 4
        &&& self.ym.wf()
    }

    pub open spec fn at_reset() -> AudioState {
        AudioState {
            m1: seq![],
            sm1: seq![],
            ram: Seq::new(Z80_RAM_SIZE as nat, |i: int| 0u8),
            ym: YmState::at_reset(),
            banks: seq![0x1E, 0x0E, 0x06, 0x02],
            cart: true,
            latch: 0,
            pending: false,
            reply: 0,
            nmi_enable: false,
            nmi_asserted: false,
            trace: false,
        }
    }

    /// Where window `region` looks into the program ROM, folded into the ROM's
    /// size.
    pub open spec fn bank_base(self, region: int) -> int {
        if self.m1.len() == 0 {
            0
        } else {
            ((bank_offset(region, self.banks[region]) as usize) & ((self.m1.len() - 1) as usize))
                as int
        }
    }

    /// What a memory read gives.
    pub open spec fn mem(self, addr: u16) -> u8 {
        if addr < 0x8000 {
            if !self.cart && self.sm1.len() > 0 {
                rom_at(self.sm1, addr as int)
            } else {
                rom_at(self.m1, addr as int)
            }
        } else if addr < 0xF800 {
            let w = window_of(addr);
            rom_at(self.m1, self.bank_base(w) + addr - window_start(w))
        } else {
            self.ram[addr - 0xF800]
        }
    }

    /// Only the RAM can be written.
    pub open spec fn mem_written(self, addr: u16, val: u8) -> AudioState {
        if addr >= 0xF800 {
            AudioState { ram: self.ram.update(addr - 0xF800, val), ..self }
        } else {
            self
        }
    }

    /// What an input gives: the command, the sound chip's ports, zero from the
    /// bank selectors, and all ones elsewhere.
    pub open spec fn input(self, port: u16) -> u8 {
        let lo = (port % 256) as u8;
        if lo == 0 {
            self.latch
        } else if 4 <= lo && lo < 8 {
            self.ym.port_value((lo - 4) as u8)
        } else if 8 <= lo && lo < 12 {
            0
        } else {
            0xFF
        }
    }

    /// The command taken.
    pub open spec fn acknowledged(self) -> AudioState {
        AudioState { pending: false, nmi_asserted: false, ..self }
    }

    /// An input takes the command, or chooses a bank by the high byte of the
    /// port.
    pub open spec fn input_done(self, port: u16) -> AudioState {
        let lo = (port % 256) as u8;
        if lo == 0 {
            self.acknowledged()
        } else if 4 <= lo && lo < 8 {
            AudioState { ym: self.ym.port_read((lo - 4) as u8), ..self }
        } else if 8 <= lo && lo < 12 {
            AudioState { banks: self.banks.update(lo - 8, (port / 256) as u8), ..self }
        } else {
            self
        }
    }

    /// An output takes the command, writes the sound chip, switches the
    /// interrupt, or gives the reply.
    pub open spec fn output_done(self, port: u16, val: u8) -> AudioState {
        let lo = (port % 256) as u8;
        if lo == 0 {
            self.acknowledged()
        } else if 4 <= lo && lo < 8 {
            AudioState { ym: self.ym.port_written((lo - 4) as u8, val), ..self }
        } else if lo == 8 {
            AudioState { nmi_enable: true, ..self }
        } else if lo == 0x18 {
            AudioState { nmi_enable: false, nmi_asserted: false, ..self }
        } else if lo == 0x0C {
            AudioState { reply: val, ..self }
        } else {
            self
        }
    }
}

impl Default for AudioBus {
    fn default() -> (bus: AudioBus)
        ensures
            bus@ == AudioState::at_reset(),
            bus@.wf(),
    {
        AudioBus::new()
    }
}

impl AudioBus {
    pub fn new() -> (bus: AudioBus)
        ensures
            bus@ == AudioState::at_reset(),
            bus@.wf(),
    {
        AudioBus {
            m1_rom: Vec::new(),
            sm1_rom: Vec::new(),
            ram: [0;Z80_RAM_SIZE],
            ym: Ym2610::new(),
            bank_sel: [0x1E, 0x0E, 0x06, 0x02],
            use_cart_audio: true,
            soundlatch: 0,
            soundlatch_pending: false,
            soundlatch2: 0,
            nmi_enable: false,
            nmi_asserted: false,
            trace: false,
        }
    }

    /// Put in the cartridge's program.
    pub fn install_m1(&mut self, m1: Vec<u8>)
        ensures
            final(self)@ == (AudioState { m1: m1@, ..old(self)@ }),
            old(self)@.wf() ==> final(self)@.wf(),
    {
        self.m1_rom = m1;
    }

    /// Put in the built-in program.
    pub fn install_sm1(&mut self, sm1: Vec<u8>)
        ensures
            final(self)@ == (AudioState { sm1: sm1@, ..old(self)@ }),
            old(self)@.wf() ==> final(self)@.wf(),
    {
        self.sm1_rom = sm1;
    }

    /// Where window `region` looks into the program ROM.
    pub fn bank_base_for(&self, region: usize) -> (base: usize)
        requires
            region < 4,
        ensures
            base == self@.bank_base(region as int),
            base <= 0x3_F800,
    {
        if self.m1_rom.len() == 0 {
            return 0;
        }
        let bank: usize = self.bank_sel[region] as usize;
        let off: usize = if region == 0 {
            0x800 * (bank % 128)
        } else if region == 1 {
            0x1000 * (bank % 64)
        } else if region == 2 {
            0x2000 * (bank % 32)
        } else {
            0x4000 * (bank % 16)
        };
        proof {
            crate::bits::mask_bounds(off, (self.m1_rom.len() - 1) as usize);
        }
        off & (self.m1_rom.len() - 1)
    }

    /// Read memory.
    pub fn mem_read(&self, addr: u16) -> (v: u8)
        ensures
            v == self@.mem(addr),
    {
        let a: usize = addr as usize;
        if a < 0x8000 {
            if !self.use_cart_audio && self.sm1_rom.len() > 0 {
                rom_byte_at(&self.sm1_rom, a)
            } else {
                rom_byte_at(&self.m1_rom, a)
            }
        } else if a < 0xC000 {
            rom_byte_at(&self.m1_rom, self.bank_base_for(3) + (a - 0x8000))
        } else if a < 0xE000 {
            rom_byte_at(&self.m1_rom, self.bank_base_for(2) + (a - 0xC000))
        } else if a < 0xF000 {
            rom_byte_at(&self.m1_rom, self.bank_base_for(1) + (a - 0xE000))
        } else if a < 0xF800 {
            rom_byte_at(&self.m1_rom, self.bank_base_for(0) + (a - 0xF000))
        } else {
            self.ram[a - 0xF800]
        }
    }

    /// Write memory.
    pub fn mem_write(&mut self, addr: u16, val: u8)
        ensures
            final(self)@ == old(self)@.mem_written(addr, val),
            old(self)@.wf() ==> final(self)@.wf(),
    {
        let a: usize = addr as usize;
        if a >= 0xF800 {
            self.ram[a - 0xF800] = val;
        }
    }

    /// Read a port.
    pub fn io_read(&mut self, port: u16) -> (v: u8)
        requires
            old(self)@.wf(),
        ensures
            v == old(self)@.input(port),
            final(self)@ == old(self)@.input_done(port),
            final(self)@.wf(),
    {
        let lo: u8 = (port % 256) as u8;
        let hi: u8 = (port / 256) as u8;
        if lo == 0 {
            self.soundlatch_pending = false;
            self.nmi_asserted = false;
            self.soundlatch
        } else if 4 <= lo && lo < 8 {
            self.ym.read_port(lo - 4)
        } else if 8 <= lo && lo < 12 {
            self.bank_sel[(lo - 8) as usize] = hi;
            0
        } else {
            0xFF
        }
    }

    /// Write a port.
    pub fn io_write(&mut self, port: u16, val: u8)
        requires
            old(self)@.wf(),
        ensures
            final(self)@ == old(self)@.output_done(port, val),
            final(self)@.wf(),
    {
        let lo: u8 = (port % 256) as u8;
        if lo == 0 {
            self.soundlatch_pending = false;
            self.nmi_asserted = false;
        } else if 4 <= lo && lo < 8 {
            self.ym.write_port(lo - 4, val);
        } else if lo == 8 {
            self.nmi_enable = true;
        } else if lo == 0x18 {
            self.nmi_enable = false;
            self.nmi_asserted = false;
        } else if lo == 0x0C {
            self.soundlatch2 = val;
        }
    }
}

impl Z80Bus for AudioBus {
    type St = AudioState;

    open spec fn st(&self) -> AudioState {
        self@
    }

    open spec fn wf(s: AudioState) -> bool {
        s.wf()
    }

    open spec fn read_val(s: AudioState, addr: u16) -> u8 {
        s.mem(addr)
    }

    open spec fn read_next(s: AudioState, addr: u16) -> AudioState {
        s
    }

    open spec fn write_next(s: AudioState, addr: u16, value: u8) -> AudioState {
        s.mem_written(addr, value)
    }

    open spec fn in_val(s: AudioState, port: u16) -> u8 {
        s.input(port)
    }

    open spec fn in_next(s: AudioState, port: u16) -> AudioState {
        s.input_done(port)
    }

    open spec fn out_next(s: AudioState, port: u16, value: u8) -> AudioState {
        s.output_done(port, value)
    }

    fn read(&mut self, addr: u16) -> u8 {
        self.mem_read(addr)
    }

    fn write(&mut self, addr: u16, value: u8) {
        self.mem_write(addr, value);
    }

    fn io_read(&mut self, port: u16) -> u8 {
        AudioBus::io_read(self, port)
    }

    fn io_write(&mut self, port: u16, value: u8) {
        AudioBus::io_write(self, port, value);
    }
}

/// The bus as the sound processor borrows it.
pub struct AudioBusRef<'a> {
    pub bus: &'a mut AudioBus,
}

impl Z80Bus for AudioBusRef<'_> {
    type St = AudioState;

    open spec fn st(&self) -> AudioState {
        self.bus@
    }

    open spec fn wf(s: AudioState) -> bool {
        s.wf()
    }

    open spec fn read_val(s: AudioState, addr: u16) -> u8 {
        s.mem(addr)
    }

    open spec fn read_next(s: AudioState, addr: u16) -> AudioState {
        s
    }

    open spec fn write_next(s: AudioState, addr: u16, value: u8) -> AudioState {
        s.mem_written(addr, value)
    }

    open spec fn in_val(s: AudioState, port: u16) -> u8 {
        s.input(port)
    }

    open spec fn in_next(s: AudioState, port: u16) -> AudioState {
        s.input_done(port)
    }

    open spec fn out_next(s: AudioState, port: u16, value: u8) -> AudioState {
        s.output_done(port, value)
    }

    fn read(&mut self, addr: u16) -> u8 {
        self.bus.mem_read(addr)
    }

    fn write(&mut self, addr: u16, value: u8) {
        self.bus.mem_write(addr, value);
    }

    fn io_read(&mut self, port: u16) -> u8 {
        self.bus.io_read(port)
    }

    fn io_write(&mut self, port: u16, value: u8) {
        self.bus.io_write(port, value);
    }
}

/// RAM gives back what was written, and nothing else changes.
pub proof fn ram_reads_back(s: AudioState, addr: u16, val: u8, other: u16)
    requires
        s.wf(),
        addr >= 0xF800,
    ensures
        s.mem_written(addr, val).mem(addr) == val,
        other != addr ==> s.mem_written(addr, val).mem(other) == s.mem(other),
{
}

/// Writes below the RAM are lost.
pub proof fn rom_cannot_be_written(s: AudioState, addr: u16, val: u8)
    requires
        addr < 0xF800,
    ensures
        s.mem_written(addr, val) == s,
{
}

/// Reading the command takes it, and lets go of the interrupt line.
pub proof fn reading_takes_the_command(s: AudioState, port: u16, val: u8)
    requires
        port % 256 == 0,
    ensures
        s.input(port) == s.latch,
        !s.input_done(port).pending,
        !s.input_done(port).nmi_asserted,
        s.output_done(port, val) == s.input_done(port),
{
}

/// A bank selector points its window, and no other, at the bank in the high byte
/// of the port.
pub proof fn selectors_choose_banks(s: AudioState, port: u16, region: int, other: int)
    requires
        s.wf(),
        0 <= region < 4,
        0 <= other < 4,
        port % 256 == 8 + region,
    ensures
        s.input_done(port).banks[region] == port / 256,
        other != region ==> s.input_done(port).banks[other] == s.banks[other],
{
}

}
