//! The main processor's memory map.
//!
//! ```text
//! 000000-0FFFFF  program ROM; the first 128 bytes can show the system ROM
//! 100000-1FFFFF  work RAM, 64 KiB repeated
//! 200000-2FFFFF  a megabyte of program ROM, or a protection device
//! 300000-3FFFFF  inputs, latches, clock and video chip
//! 400000-7FFFFF  one of two palette banks, repeated
//! 800000-BFFFFF  memory card, on odd bytes
//! C00000-CFFFFF  system ROM, 128 KiB repeated
//! D00000-DFFFFF  backup RAM, 64 KiB repeated
//! ```
use vstd::prelude::*;
use crate::cpu::m68k::Bus;
use crate::graphics::lspc::{Lspc, LspcState, VRAM_WORDS};
use crate::memory::prot::{CartProt, ProtState};
use crate::memory::upd4990a::Upd4990a;

verus! {

pub const WORK_RAM_SIZE: usize = 0x1_0000;

/// Two banks.
pub const PALETTE_RAM_SIZE: usize = 0x4000;

pub const BACKUP_RAM_SIZE: usize = 0x1_0000;

pub const MEMCARD_RAM_SIZE: usize = 0x800;

/// Cycles until the watchdog bites: 3244030 ticks of a clock twice as fast.
pub const WATCHDOG_TIMEOUT_68K: i64 = 1_622_015;

/// The bus.
#[derive(Debug)]
pub struct NeoGeoBus {
    pub system_rom: Vec<u8>,
    pub p_rom: Vec<u8>,
    pub work_ram: Vec<u8>,
    pub palette_ram: Vec<u8>,
    pub backup_ram: Vec<u8>,
    pub memcard_ram: Vec<u8>,
    pub memcard_present: bool,
    pub lspc: Lspc,
    pub upd4990a: Upd4990a,
    /// Where in the program ROM the bank window looks.
    pub p_rom_bank_offset: usize,
    /// Whether the system ROM is shown at the bottom.
    pub bios_at_zero: bool,
    /// Eight switches: shadow, cartridge vectors, card lock, card unlock, card
    /// register, cartridge sound and text, backup unlock, palette bank.
    pub systemlatch: u8,
    pub dipsw: u8,
    /// Bit 7 tells an arcade machine from a console.
    pub systype: u8,
    /// The command to the sound processor.
    pub sound_latch: u8,
    pub sound_latch_pending: bool,
    /// Its reply.
    pub sound_reply: u8,
    /// Controls: a pressed one is a zero bit.
    pub p1_input: u8,
    pub p2_input: u8,
    pub start_select: u8,
    pub coin_inputs: u8,
    pub watchdog_cycles: i64,
    pub watchdog_expired: bool,
    pub prot: CartProt,
}

/// What the bus holds.
#[verifier::ext_equal]
pub ghost struct BusState {
    pub system_rom: Seq<u8>,
    pub p_rom: Seq<u8>,
    pub work_ram: Seq<u8>,
    pub palette_ram: Seq<u8>,
    pub backup_ram: Seq<u8>,
    pub memcard_ram: Seq<u8>,
    pub memcard_present: bool,
    pub lspc: LspcState,
    pub rtc: Upd4990a,
    pub bank: int,
    pub bios_at_zero: bool,
    pub latch: u8,
    pub dipsw: u8,
    pub systype: u8,
    pub sound_latch: u8,
    pub sound_latch_pending: bool,
    pub sound_reply: u8,
    pub p1_input: u8,
    pub p2_input: u8,
    pub start_select: u8,
    pub coin_inputs: u8,
    pub watchdog_cycles: i64,
    pub watchdog_expired: bool,
    pub prot: ProtState,
}

impl View for NeoGeoBus {
    type V = BusState;

    open spec fn view(&self) -> BusState {
        BusState {
            system_rom: self.system_rom@,
            p_rom: self.p_rom@,
            work_ram: self.work_ram@,
            palette_ram: self.palette_ram@,
            backup_ram: self.backup_ram@,
            memcard_ram: self.memcard_ram@,
            memcard_present: self.memcard_present,
            lspc: self.lspc@,
            rtc: self.upd4990a,
            bank: self.p_rom_bank_offset as int,
            bios_at_zero: self.bios_at_zero,
            latch: self.systemlatch,
            dipsw: self.dipsw,
            systype: self.systype,
            sound_latch: self.sound_latch,
            sound_latch_pending: self.sound_latch_pending,
            sound_reply: self.sound_reply,
            p1_input: self.p1_input,
            p2_input: self.p2_input,
            start_select: self.start_select,
            coin_inputs: self.coin_inputs,
            watchdog_cycles: self.watchdog_cycles,
            watchdog_expired: self.watchdog_expired,
            prot: self.prot@,
        }
    }
}

/// A byte, or all ones where there is none.
pub open spec fn byte_or_ones(s: Seq<u8>, i: int) -> u8 {
    if i < s.len() {
        s[i]
    } else {
        0xFF
    }
}

fn get_or_ones(v: &Vec<u8>, i: usize) -> (b: u8)
    ensures
        b == byte_or_ones(v@, i as int),
{
    if i < v.len() {
        v[i]
    } else {
        0xFF
    }
}

/// The other byte of the same word.
pub open spec fn other_byte(i: int) -> int {
    if i % 2 == 0 {
        i + 1
    } else {
        i - 1
    }
}

/// Data with the bytes of every whole word exchanged.
pub open spec fn words_swapped(s: Seq<u8>) -> Seq<u8> {
    Seq::new(
        s.len(),
        |i: int|
            if i / 2 < s.len() as int / 2 {
                s[other_byte(i)]
            } else {
                s[i]
            },
    )
}

/// Exchanging the bytes of words twice changes nothing.
pub proof fn swapping_undoes_itself(s: Seq<u8>)
    ensures
        words_swapped(words_swapped(s)) == s,
{
    assert(words_swapped(words_swapped(s)) =~= s);
}

fn swap_words(v: &mut Vec<u8>)
    ensures
        final(v)@ == words_swapped(old(v)@),
{
    let ghost s = v@;
    let words: usize = v.len() / 2;
    let mut w: usize = 0;
    while w < words
        invariant
            w <= words,
            words == s.len() as int / 2,
            v@.len() == s.len(),
            s.len() <= usize::MAX,
            forall|i: int|
                0 <= i < s.len() ==> #[trigger] v@[i] == if i / 2 < w {
                    words_swapped(s)[i]
                } else {
                    s[i]
                },
        decreases words - w,
    {
        let x: u8 = v[2 * w];
        let y: u8 = v[2 * w + 1];
        v.set(2 * w, y);
        v.set(2 * w + 1, x);
        w = w + 1;
    }
    assert(v@ =~= words_swapped(s));
}

/// One switch of the latch turned.
pub open spec fn latch_after(latch: u8, i: u32, on: bool) -> u8 {
    if on {
        latch | (1u8 << i)
    } else {
        latch & !(1u8 << i)
    }
}

/// The high and the low byte of a word, at even and odd addresses.
pub open spec fn lane(w: u16, a: u32) -> u8 {
    if a % 2 == 0 {
        (w >> 8) as u8
    } else {
        w as u8
    }
}

fn byte_lane(w: u16, a: u32) -> (b: u8)
    ensures
        b == lane(w, a),
{
    if a % 2 == 0 {
        (w >> 8) as u8
    } else {
        w as u8
    }
}

impl BusState {
    pub open spec fn wf(self) -> bool {
        &&& self.system_rom.len() == 0 || self.system_rom.len() >= 0x80
        &&& self.work_ram.len() == WORK_RAM_SIZE
        &&& self.palette_ram.len() == PALETTE_RAM_SIZE
        &&& self.backup_ram.len() == BACKUP_RAM_SIZE
        &&& self.memcard_ram.len() == MEMCARD_RAM_SIZE
        &&& self.lspc.wf()
        &&& self.rtc.wf()
        &&& 0 <= self.bank < 0x2000_0000
        &&& self.prot.wf()
    }

    /// The bus with nothing plugged in but an empty memory card.
    pub open spec fn at_reset() -> BusState {
        BusState {
            system_rom: Seq::new(0x2_0000, |i: int| 0xFFu8),
            p_rom: Seq::new(0x10_0000, |i: int| 0xFFu8),
            work_ram: Seq::new(WORK_RAM_SIZE as nat, |i: int| 0u8),
            palette_ram: Seq::new(PALETTE_RAM_SIZE as nat, |i: int| 0u8),
            backup_ram: Seq::new(BACKUP_RAM_SIZE as nat, |i: int| 0u8),
            memcard_ram: Seq::new(MEMCARD_RAM_SIZE as nat, |i: int| 0xFFu8),
            memcard_present: true,
            lspc: LspcState {
                vram: Seq::new(VRAM_WORDS as nat, |i: int| 0u16),
                address: 0,
                modulo: 0,
                control: 0,
                read_buffer: 0,
                timer: 0,
                irq_ack: 0,
                scanline: 0,
                auto_animation_counter: 0,
                auto_animation_disabled: false,
            },
            rtc: Upd4990a::at_reset(),
            bank: 0,
            bios_at_zero: false,
            latch: 0,
            dipsw: 0xFF,
            systype: 0,
            sound_latch: 0,
            sound_latch_pending: false,
            sound_reply: 1,
            p1_input: 0xFF,
            p2_input: 0xFF,
            start_select: 0xFF,
            coin_inputs: 0xFF,
            watchdog_cycles: WATCHDOG_TIMEOUT_68K,
            watchdog_expired: false,
            prot: ProtState::Plain,
        }
    }

    /// The word of work RAM that one of the protection devices looks at.
    pub open spec fn prot_select(self) -> u16 {
        (256 * self.work_ram[0xF00A] + self.work_ram[0xF00B]) as u16
    }

    /// What the protection device answers at the even address `a`, if it does.
    pub open spec fn prot_read(self, a: u32) -> Option<u16> {
        self.prot.read_of(a, self.p_rom, self.prot_select())
    }

    pub open spec fn prot_read_done(self, a: u32) -> BusState {
        BusState { prot: self.prot.after_read(a), ..self }
    }

    /// A write that the protection device takes.
    pub open spec fn prot_written(self, a: u32, data: u16, mask: u16) -> BusState {
        BusState {
            prot: self.prot.after_write(a, data, mask),
            bank: match self.prot.bank_after(a, data, mask) {
                Some(b) => b,
                None => self.bank,
            },
            ..self
        }
    }

    /// Coins and service in the low five bits, the clock's lines above.
    pub open spec fn status_a(self) -> u8 {
        (self.coin_inputs & 0x1F) | self.rtc.status()
    }

    /// Start and select in the low four bits, a card that is always there, the
    /// kind of machine in bit 7.
    pub open spec fn status_b(self) -> u8 {
        (self.start_select & 0x0F) | 0x40 | (self.systype & 0x80)
    }

    /// What the inputs and chips read as.
    pub open spec fn io(self, a: u32) -> u8 {
        let page = a / 256;
        if page == 0x3000 {
            if a % 2 == 0 {
                self.p1_input
            } else {
                self.dipsw
            }
        } else if page == 0x3200 {
            if a % 2 == 0 {
                self.sound_reply
            } else {
                self.status_a()
            }
        } else if page == 0x3400 {
            if a % 2 == 0 {
                self.p2_input
            } else {
                0xFF
            }
        } else if page == 0x3800 {
            if a % 2 == 0 {
                self.status_b()
            } else {
                0xFF
            }
        } else if page == 0x3C00 {
            self.lspc.register_byte(a as u16)
        } else {
            0xFF
        }
    }

    /// A write to the latches and chips: the watchdog, the sound command, the
    /// clock's wires, one switch of the system latch, or the video chip.
    pub open spec fn io_written(self, a: u32, value: u8) -> BusState {
        let page = a / 256;
        if page == 0x3000 {
            if a % 2 == 1 {
                self.kicked()
            } else {
                self
            }
        } else if page == 0x3200 {
            if a % 2 == 0 {
                BusState { sound_latch: value, sound_latch_pending: true, ..self }
            } else {
                self
            }
        } else if page == 0x3800 {
            if a % 2 == 1 && 0x50 <= a % 256 && a % 256 < 0x60 {
                BusState { rtc: self.rtc.written(value), ..self }
            } else {
                self
            }
        } else if page == 0x3A00 {
            let i = (a / 2) % 8;
            let on = (a / 16) % 2 == 1;
            BusState {
                latch: latch_after(self.latch, i, on),
                bios_at_zero: if i == 1 {
                    !on
                } else {
                    self.bios_at_zero
                },
                ..self
            }
        } else if page == 0x3C00 {
            BusState { lspc: self.lspc.register_byte_written(a as u16, value), ..self }
        } else {
            self
        }
    }

    /// Where a palette byte lies: the latch's last switch chooses the bank.
    pub open spec fn palette_index(self, a: u32) -> int {
        a as int % 0x2000 + if self.latch & 0x80 != 0 {
            0x2000int
        } else {
            0
        }
    }

    /// Whether the memory card can be written: one switch off, the next on.
    pub open spec fn card_open(self) -> bool {
        (self.latch >> 2) & 1 == 0 && (self.latch >> 3) & 1 == 1
    }

    /// The byte at an address of 24 bits outside the bank window.
    pub open spec fn plain_byte(self, a: u32) -> u8 {
        if a < 0x80 && self.bios_at_zero && self.system_rom.len() > 0 {
            self.system_rom[a as int]
        } else if a < 0x10_0000 {
            match self.prot {
                ProtState::Kof98(p) => if 0x100 <= a && a <= 0x103 {
                    lane(p.read_of((a / 2) % 2), a)
                } else {
                    byte_or_ones(self.p_rom, a as int)
                },
                _ => byte_or_ones(self.p_rom, a as int),
            }
        } else if a < 0x20_0000 {
            self.work_ram[a as int % 0x1_0000]
        } else if a < 0x40_0000 {
            self.io(a)
        } else if a < 0x80_0000 {
            self.palette_ram[self.palette_index(a)]
        } else if a < 0xC0_0000 {
            if self.memcard_present && a % 2 == 1 {
                self.memcard_ram[(a as int / 2) % 0x800]
            } else {
                0xFF
            }
        } else if a < 0xD0_0000 {
            byte_or_ones(self.system_rom, a as int % 0x2_0000)
        } else if a < 0xE0_0000 {
            self.backup_ram[a as int % 0x1_0000]
        } else {
            0xFF
        }
    }

    /// A byte read.
    pub open spec fn byte(self, addr: u32) -> u8 {
        let a = addr % 0x100_0000;
        if 0x20_0000 <= a && a < 0x30_0000 {
            match self.prot_read((a - a % 2) as u32) {
                Some(w) => lane(w, a),
                None => byte_or_ones(self.p_rom, self.bank + a as int % 0x10_0000),
            }
        } else {
            self.plain_byte(a)
        }
    }

    /// The bus after it: only protection devices notice.
    pub open spec fn byte_read(self, addr: u32) -> BusState {
        let a = addr % 0x100_0000;
        if 0x20_0000 <= a && a < 0x30_0000 {
            self.prot_read_done((a - a % 2) as u32)
        } else {
            self
        }
    }

    /// The bank register: which megabyte behind the first, or the first of them
    /// if there is no such one.
    pub open spec fn bank_chosen(self, value: u8) -> int {
        let n = value as int % 8 + 1;
        if n * 0x10_0000 >= self.p_rom.len() {
            0x10_0000
        } else {
            n * 0x10_0000
        }
    }

    /// A byte write into the bank window.
    pub open spec fn window_written(self, a: u32, value: u8) -> BusState {
        let even = (a - a % 2) as u32;
        let (data, mask) = if a % 2 == 0 {
            ((value as u16) << 8, 0xFF00u16)
        } else {
            (value as u16, 0x00FFu16)
        };
        if self.prot.claims(even) {
            self.prot_written(even, data, mask)
        } else if a >= 0x2F_FFF0 {
            BusState { bank: self.bank_chosen(value), ..self }
        } else {
            self
        }
    }

    /// A byte write.
    pub open spec fn byte_written(self, addr: u32, value: u8) -> BusState {
        let a = addr % 0x100_0000;
        if a < 0x10_0000 {
            self
        } else if a < 0x20_0000 {
            BusState { work_ram: self.work_ram.update(a as int % 0x1_0000, value), ..self }
        } else if a < 0x30_0000 {
            self.window_written(a, value)
        } else if a < 0x40_0000 {
            self.io_written(a, value)
        } else if a < 0x80_0000 {
            BusState { palette_ram: self.palette_ram.update(self.palette_index(a), value), ..self }
        } else if a < 0xC0_0000 {
            if self.memcard_present && self.card_open() && a % 2 == 1 {
                BusState {
                    memcard_ram: self.memcard_ram.update((a as int / 2) % 0x800, value),
                    ..self
                }
            } else {
                self
            }
        } else if 0xD0_0000 <= a && a < 0xE0_0000 {
            if self.latch & 0x40 != 0 {
                BusState { backup_ram: self.backup_ram.update(a as int % 0x1_0000, value), ..self }
            } else {
                self
            }
        } else {
            self
        }
    }

    /// Whether a word at `a` is a register of the video chip.
    pub open spec fn in_lspc(a: u32) -> bool {
        0x3C_0000 <= a && a <= 0x3C_00FE
    }

    /// Two bytes read one after the other.
    pub open spec fn two_bytes(self, addr: u32) -> u16 {
        ((self.byte(addr) as u16) << 8) | (self.byte_read(addr).byte(addr.wrapping_add(1)) as u16)
    }

    /// A word read. The video chip and a protection device see one access; all
    /// else sees two bytes.
    pub open spec fn word(self, addr: u32) -> u16 {
        let a = addr % 0x100_0000;
        if BusState::in_lspc(a) {
            self.lspc.register(a as u16)
        } else if 0x20_0000 <= a && a < 0x30_0000 {
            match self.prot_read((a - a % 2) as u32) {
                Some(w) => w,
                None => self.prot_read_done((a - a % 2) as u32).two_bytes(addr),
            }
        } else {
            self.two_bytes(addr)
        }
    }

    pub open spec fn two_bytes_read(self, addr: u32) -> BusState {
        self.byte_read(addr).byte_read(addr.wrapping_add(1))
    }

    pub open spec fn word_read(self, addr: u32) -> BusState {
        let a = addr % 0x100_0000;
        if BusState::in_lspc(a) {
            self
        } else if 0x20_0000 <= a && a < 0x30_0000 {
            let s = self.prot_read_done((a - a % 2) as u32);
            match self.prot_read((a - a % 2) as u32) {
                Some(_) => s,
                None => s.two_bytes_read(addr),
            }
        } else {
            self.two_bytes_read(addr)
        }
    }

    pub open spec fn two_bytes_written(self, addr: u32, value: u16) -> BusState {
        self.byte_written(addr, (value >> 8) as u8).byte_written(addr.wrapping_add(1), value as u8)
    }

    /// A word write, with single accesses as for reads.
    pub open spec fn word_written(self, addr: u32, value: u16) -> BusState {
        let a = addr % 0x100_0000;
        let even = (a - a % 2) as u32;
        if BusState::in_lspc(a) {
            BusState { lspc: self.lspc.register_written(a as u16, value), ..self }
        } else if 0x20_0000 <= a && a < 0x30_0000 && self.prot.claims(even) {
            self.prot_written(even, value, 0xFFFF)
        } else {
            self.two_bytes_written(addr, value)
        }
    }

    /// The watchdog reloaded.
    pub open spec fn kicked(self) -> BusState {
        BusState { watchdog_cycles: WATCHDOG_TIMEOUT_68K, ..self }
    }

    /// The watchdog some cycles later.
    pub open spec fn watched(self, cycles: u32) -> BusState {
        if self.watchdog_expired {
            self
        } else {
            let left = if self.watchdog_cycles - cycles < i64::MIN {
                i64::MIN as int
            } else {
                self.watchdog_cycles - cycles
            };
            BusState { watchdog_cycles: left as i64, watchdog_expired: left <= 0, ..self }
        }
    }
}

impl Default for NeoGeoBus {
    fn default() -> (bus: NeoGeoBus)
        ensures
            bus@ == BusState::at_reset(),
            bus@.wf(),
    {
        NeoGeoBus::new()
    }
}

impl NeoGeoBus {
    pub fn new() -> (bus: NeoGeoBus)
        ensures
            bus@ == BusState::at_reset(),
            bus@.wf(),
    {
        NeoGeoBus {
            system_rom: vec![0xFFu8; 0x2_0000],
            p_rom: vec![0xFFu8; 0x10_0000],
            work_ram: vec![0u8; WORK_RAM_SIZE],
            palette_ram: vec![0u8; PALETTE_RAM_SIZE],
            backup_ram: vec![0u8; BACKUP_RAM_SIZE],
            memcard_ram: vec![0xFFu8; MEMCARD_RAM_SIZE],
            memcard_present: true,
            lspc: Lspc::new(),
            upd4990a: Upd4990a::new(),
            p_rom_bank_offset: 0,
            bios_at_zero: false,
            systemlatch: 0,
            dipsw: 0xFF,
            systype: 0,
            sound_latch: 0,
            sound_latch_pending: false,
            sound_reply: 1,
            p1_input: 0xFF,
            p2_input: 0xFF,
            start_select: 0xFF,
            coin_inputs: 0xFF,
            watchdog_cycles: WATCHDOG_TIMEOUT_68K,
            watchdog_expired: false,
            prot: CartProt::Plain,
        }
    }

    /// Let the watchdog count; whether it bites now.
    pub fn tick_watchdog(&mut self, cycles: u32) -> (bites: bool)
        ensures
            final(self)@ == old(self)@.watched(cycles),
            bites == (!old(self)@.watchdog_expired && final(self)@.watchdog_expired),
    {
        if self.watchdog_expired {
            return false;
        }
        let c: i64 = cycles as i64;
        self.watchdog_cycles = if self.watchdog_cycles < i64::MIN + c {
            i64::MIN
        } else {
            self.watchdog_cycles - c
        };
        if self.watchdog_cycles <= 0 {
            self.watchdog_expired = true;
            return true;
        }
        false
    }

    /// Reload the watchdog.
    pub fn kick_watchdog(&mut self)
        ensures
            final(self)@ == old(self)@.kicked(),
            old(self)@.wf() ==> final(self)@.wf(),
    {
        self.watchdog_cycles = WATCHDOG_TIMEOUT_68K;
    }

    /// Put in the system ROM, given with the bytes of each word exchanged, and
    /// show it at the bottom.
    pub fn load_system_rom(&mut self, data: Vec<u8>)
        ensures
            final(self)@ == (BusState {
                system_rom: words_swapped(
                    Seq::new(0x2_0000, |i: int| byte_or_ones(data@, i)),
                ),
                bios_at_zero: true,
                ..old(self)@
            }),
            old(self)@.wf() ==> final(self)@.wf(),
    {
        let mut buf: Vec<u8> = vec![0xFFu8; 0x2_0000];
        let mut i: usize = 0;
        while i < 0x2_0000
            invariant
                i <= 0x2_0000,
                buf@.len() == 0x2_0000,
                forall|k: int| 0 <= k < i ==> #[trigger] buf@[k] == byte_or_ones(data@, k),
            decreases 0x2_0000 - i,
        {
            buf.set(i, get_or_ones(&data, i));
            i = i + 1;
        }
        assert(buf@ =~= Seq::new(0x2_0000, |i: int| byte_or_ones(data@, i)));
        swap_words(&mut buf);
        self.system_rom = buf;
        self.bios_at_zero = true;
    }

    /// Put in the program ROM, given with the bytes of each word exchanged. The
    /// window looks at the second megabyte if there is one.
    pub fn load_p_rom(&mut self, data: Vec<u8>)
        ensures
            final(self)@ == (BusState {
                p_rom: words_swapped(data@),
                bank: if data@.len() > 0x10_0000 {
                    0x10_0000
                } else {
                    0
                },
                ..old(self)@
            }),
            old(self)@.wf() ==> final(self)@.wf(),
    {
        let mut rom: Vec<u8> = data;
        swap_words(&mut rom);
        self.p_rom_bank_offset = if rom.len() > 0x10_0000 {
            0x10_0000
        } else {
            0
        };
        self.p_rom = rom;
    }

    fn prot_read16(&mut self, a: u32) -> (r: Option<u16>)
        requires
            old(self)@.wf(),
            0x20_0000 <= a <= 0x2F_FFFF,
        ensures
            r == old(self)@.prot_read(a),
            final(self)@ == old(self)@.prot_read_done(a),
            final(self)@.wf(),
    {
        let select: u16 = 256 * self.work_ram[0xF00A] as u16 + self.work_ram[0xF00B] as u16;
        self.prot.read16(a, self.p_rom.as_slice(), select)
    }

    fn prot_write16(&mut self, word_addr: u32, data: u16, mem_mask: u16) -> (taken: bool)
        requires
            old(self)@.wf(),
            0x20_0000 <= word_addr <= 0x2F_FFFF,
        ensures
            taken == old(self)@.prot.claims(word_addr),
            taken ==> final(self)@ == old(self)@.prot_written(word_addr, data, mem_mask),
            !taken ==> final(self)@ == old(self)@,
            final(self)@.wf(),
    {
        if !self.prot.takes(word_addr) {
            return false;
        }
        let bank: Option<usize> = self.prot.write16(word_addr, data, mem_mask);
        if let Some(b) = bank {
            self.p_rom_bank_offset = b;
        }
        true
    }

    fn io_read8(&self, a: u32) -> (v: u8)
        requires
            self@.wf(),
        ensures
            v == self@.io(a),
    {
        let page: u32 = a / 256;
        if page == 0x3000 {
            if a % 2 == 0 {
                self.p1_input
            } else {
                self.dipsw
            }
        } else if page == 0x3200 {
            if a % 2 == 0 {
                self.sound_reply
            } else {
                (self.coin_inputs & 0x1F) | self.upd4990a.status_bits()
            }
        } else if page == 0x3400 {
            if a % 2 == 0 {
                self.p2_input
            } else {
                0xFF
            }
        } else if page == 0x3800 {
            if a % 2 == 0 {
                (self.start_select & 0x0F) | 0x40 | (self.systype & 0x80)
            } else {
                0xFF
            }
        } else if page == 0x3C00 {
            self.lspc.read_register_byte(a as u16)
        } else {
            0xFF
        }
    }

    fn io_write8(&mut self, a: u32, value: u8)
        requires
            old(self)@.wf(),
        ensures
            final(self)@ == old(self)@.io_written(a, value),
            final(self)@.wf(),
    {
        let page: u32 = a / 256;
        if page == 0x3000 {
            if a % 2 == 1 {
                self.kick_watchdog();
            }
        } else if page == 0x3200 {
            if a % 2 == 0 {
                self.sound_latch = value;
                self.sound_latch_pending = true;
            }
        } else if page == 0x3800 {
            if a % 2 == 1 && 0x50 <= a % 256 && a % 256 < 0x60 {
                self.upd4990a.write(value);
            }
        } else if page == 0x3A00 {
            let i: u32 = (a / 2) % 8;
            let on: bool = (a / 16) % 2 == 1;
            self.systemlatch = if on {
                self.systemlatch | (1u8 << i)
            } else {
                self.systemlatch & !(1u8 << i)
            };
            if i == 1 {
                self.bios_at_zero = !on;
            }
        } else if page == 0x3C00 {
            self.lspc.write_register_byte(a as u16, value);
        }
    }

    fn palette_offset(&self, a: u32) -> (off: usize)
        ensures
            off == self@.palette_index(a),
            off < PALETTE_RAM_SIZE,
    {
        (a % 0x2000) as usize + if self.systemlatch & 0x80 != 0 {
            0x2000
        } else {
            0
        }
    }

    fn read_plain8(&self, a: u32) -> (v: u8)
        requires
            self@.wf(),
        ensures
            v == self@.plain_byte(a),
    {
        if a < 0x80 && self.bios_at_zero && self.system_rom.len() > 0 {
            self.system_rom[a as usize]
        } else if a < 0x10_0000 {
            match &self.prot {
                CartProt::Kof98(p) => if 0x100 <= a && a <= 0x103 {
                    byte_lane(p.protection_r((a / 2) % 2), a)
                } else {
                    get_or_ones(&self.p_rom, a as usize)
                },
                _ => get_or_ones(&self.p_rom, a as usize),
            }
        } else if a < 0x20_0000 {
            self.work_ram[(a % 0x1_0000) as usize]
        } else if a < 0x40_0000 {
            self.io_read8(a)
        } else if a < 0x80_0000 {
            self.palette_ram[self.palette_offset(a)]
        } else if a < 0xC0_0000 {
            if self.memcard_present && a % 2 == 1 {
                self.memcard_ram[((a / 2) % 0x800) as usize]
            } else {
                0xFF
            }
        } else if a < 0xD0_0000 {
            get_or_ones(&self.system_rom, (a % 0x2_0000) as usize)
        } else if a < 0xE0_0000 {
            self.backup_ram[(a % 0x1_0000) as usize]
        } else {
            0xFF
        }
    }

    fn read_phys8(&mut self, addr: u32) -> (v: u8)
        requires
            old(self)@.wf(),
        ensures
            v == old(self)@.byte(addr),
            final(self)@ == old(self)@.byte_read(addr),
            final(self)@.wf(),
    {
        let a: u32 = addr % 0x100_0000;
        if 0x20_0000 <= a && a < 0x30_0000 {
            match self.prot_read16(a - a % 2) {
                Some(w) => byte_lane(w, a),
                None => get_or_ones(
                    &self.p_rom,
                    self.p_rom_bank_offset + (a % 0x10_0000) as usize,
                ),
            }
        } else {
            self.read_plain8(a)
        }
    }

    fn write_window8(&mut self, a: u32, value: u8)
        requires
            old(self)@.wf(),
            0x20_0000 <= a <= 0x2F_FFFF,
        ensures
            final(self)@ == old(self)@.window_written(a, value),
            final(self)@.wf(),
    {
        let (data, mask): (u16, u16) = if a % 2 == 0 {
            ((value as u16) << 8, 0xFF00)
        } else {
            (value as u16, 0x00FF)
        };
        let taken: bool = self.prot_write16(a - a % 2, data, mask);
        if !taken && a >= 0x2F_FFF0 {
            let n: usize = (value % 8) as usize + 1;
            self.p_rom_bank_offset = if n * 0x10_0000 >= self.p_rom.len() {
                0x10_0000
            } else {
                n * 0x10_0000
            };
        }
    }

    fn write_phys8(&mut self, addr: u32, value: u8)
        requires
            old(self)@.wf(),
        ensures
            final(self)@ == old(self)@.byte_written(addr, value),
            final(self)@.wf(),
    {
        let a: u32 = addr % 0x100_0000;
        if a < 0x10_0000 {
            return;
        }
        if a < 0x20_0000 {
            self.work_ram.set((a % 0x1_0000) as usize, value);
        } else if a < 0x30_0000 {
            self.write_window8(a, value);
        } else if a < 0x40_0000 {
            self.io_write8(a, value);
        } else if a < 0x80_0000 {
            let off: usize = self.palette_offset(a);
            self.palette_ram.set(off, value);
        } else if a < 0xC0_0000 {
            let open: bool = (self.systemlatch >> 2) & 1 == 0 && (self.systemlatch >> 3) & 1 == 1;
            if self.memcard_present && open && a % 2 == 1 {
                self.memcard_ram.set(((a / 2) % 0x800) as usize, value);
            }
        } else if 0xD0_0000 <= a && a < 0xE0_0000 {
            if self.systemlatch & 0x40 != 0 {
                self.backup_ram.set((a % 0x1_0000) as usize, value);
            }
        }
    }

    fn read_two(&mut self, addr: u32) -> (v: u16)
        requires
            old(self)@.wf(),
        ensures
            v == old(self)@.two_bytes(addr),
            final(self)@ == old(self)@.two_bytes_read(addr),
            final(self)@.wf(),
    {
        let hi: u8 = self.read_phys8(addr);
        let lo: u8 = self.read_phys8(addr.wrapping_add(1));
        ((hi as u16) << 8) | (lo as u16)
    }

    fn write_two(&mut self, addr: u32, value: u16)
        requires
            old(self)@.wf(),
        ensures
            final(self)@ == old(self)@.two_bytes_written(addr, value),
            final(self)@.wf(),
    {
        self.write_phys8(addr, (value >> 8) as u8);
        self.write_phys8(addr.wrapping_add(1), value as u8);
    }
}

impl Bus for NeoGeoBus {
    type St = BusState;

    open spec fn st(&self) -> BusState {
        self@
    }

    open spec fn wf(s: BusState) -> bool {
        s.wf()
    }

    open spec fn read8_val(s: BusState, addr: u32) -> u8 {
        s.byte(addr)
    }

    open spec fn read8_next(s: BusState, addr: u32) -> BusState {
        s.byte_read(addr)
    }

    open spec fn read16_val(s: BusState, addr: u32) -> u16 {
        s.word(addr)
    }

    open spec fn read16_next(s: BusState, addr: u32) -> BusState {
        s.word_read(addr)
    }

    open spec fn write8_next(s: BusState, addr: u32, value: u8) -> BusState {
        s.byte_written(addr, value)
    }

    open spec fn write16_next(s: BusState, addr: u32, value: u16) -> BusState {
        s.word_written(addr, value)
    }

    fn read8(&mut self, addr: u32) -> u8 {
        self.read_phys8(addr)
    }

    fn read16(&mut self, addr: u32) -> u16 {
        let a: u32 = addr % 0x100_0000;
        if 0x3C_0000 <= a && a <= 0x3C_00FE {
            self.lspc.read_register_word(a as u16)
        } else if 0x20_0000 <= a && a < 0x30_0000 {
            match self.prot_read16(a - a % 2) {
                Some(w) => w,
                None => self.read_two(addr),
            }
        } else {
            self.read_two(addr)
        }
    }

    fn write8(&mut self, addr: u32, value: u8) {
        self.write_phys8(addr, value);
    }

    fn write16(&mut self, addr: u32, value: u16) {
        let a: u32 = addr % 0x100_0000;
        if 0x3C_0000 <= a && a <= 0x3C_00FE {
            self.lspc.write_register_word(a as u16, value);
        } else if 0x20_0000 <= a && a < 0x30_0000 {
            let taken: bool = self.prot_write16(a - a % 2, value, 0xFFFF);
            if !taken {
                self.write_two(addr, value);
            }
        } else {
            self.write_two(addr, value);
        }
    }
}

}
