//! Protection devices on cartridges, seen through the bank window.
use vstd::prelude::*;

verus! {

/// The bits of `v` at the given places, the first becoming the highest.
pub open spec fn bitswap_of(v: u32, bits: Seq<u32>) -> u32
    decreases bits.len(),
{
    if bits.len() == 0 {
        0
    } else {
        (bitswap_of(v, bits.drop_last()) << 1) | ((v >> bits.last()) & 1)
    }
}

/// Rearrange the bits of a number.
pub fn bitswap(v: u32, bits: &[u32]) -> (r: u32)
    requires
        forall|i: int| 0 <= i < bits@.len() ==> #[trigger] bits@[i] < 32,
    ensures
        r == bitswap_of(v, bits@),
{
    let n: usize = bits.len();
    let mut r: u32 = 0;
    let mut i: usize = 0;
    while i < n
        invariant
            i <= n,
            n == bits@.len(),
            forall|k: int| 0 <= k < bits@.len() ==> #[trigger] bits@[k] < 32,
            r == bitswap_of(v, bits@.take(i as int)),
        decreases n - i,
    {
        assert(bits@.take(i as int + 1).drop_last() =~= bits@.take(i as int));
        assert(bits@.take(i as int + 1).last() == bits@[i as int]);
        r = (r << 1) | ((v >> bits[i]) & 1);
        i = i + 1;
    }
    assert(bits@.take(n as int) =~= bits@);
    r
}

/// A shift register of four bytes, loaded by magic addresses and read a byte at
/// a time from the top.
#[derive(Debug, Clone, Copy)]
pub struct FatFury2Prot {
    pub data: u32,
}

impl FatFury2Prot {
    /// What word `offset` reads as: the top byte, or its halves swapped.
    pub open spec fn read_of(self, offset: u32) -> u16 {
        let top = (self.data / 0x100_0000) as int;
        if offset == 0x2_AAA8 || offset == 0x7_FFF8 || offset == 0 || offset == 0x7_F800 || offset
            == 0x1_B000 || offset == 0x1_B004 {
            top as u16
        } else if offset == 0x1_B002 || offset == 0x1_B006 {
            (16 * (top % 16) + top / 16) as u16
        } else {
            0
        }
    }

    pub fn protection_r(&self, offset: u32) -> (v: u16)
        ensures
            v == self.read_of(offset),
    {
        let top: u16 = (self.data / 0x100_0000) as u16;
        if offset == 0x2_AAA8 || offset == 0x7_FFF8 || offset == 0 || offset == 0x7_F800 || offset
            == 0x1_B000 || offset == 0x1_B004 {
            top
        } else if offset == 0x1_B002 || offset == 0x1_B006 {
            16 * (top % 16) + top / 16
        } else {
            0
        }
    }

    /// Six addresses load the register, seven shift it by a byte.
    pub open spec fn written(self, offset: u32) -> FatFury2Prot {
        let data = if offset == 0x0_8889 {
            0xFF00_0000u32
        } else if offset == 0x1_9999 {
            0x0000_FFFF
        } else if offset == 0x2_2221 {
            0x00FF_0000
        } else if offset == 0x2_AAA9 {
            0xFF00_FF00
        } else if offset == 0x2_B3C1 {
            0xF05A_3601
        } else if offset == 0x2_1409 {
            0x8142_2418
        } else if offset == 0x2_AAA8 || offset == 0x7_FFF8 || offset == 0x7_F800 || offset
            == 0x1_B000 || offset == 0x1_B002 || offset == 0x1_B004 || offset == 0x1_B006 {
            self.data << 8
        } else {
            self.data
        };
        FatFury2Prot { data }
    }

    pub fn protection_w(&mut self, offset: u32, _data: u16)
        ensures
            *final(self) == old(self).written(offset),
    {
        if offset == 0x0_8889 {
            self.data = 0xFF00_0000;
        } else if offset == 0x1_9999 {
            self.data = 0x0000_FFFF;
        } else if offset == 0x2_2221 {
            self.data = 0x00FF_0000;
        } else if offset == 0x2_AAA9 {
            self.data = 0xFF00_FF00;
        } else if offset == 0x2_B3C1 {
            self.data = 0xF05A_3601;
        } else if offset == 0x2_1409 {
            self.data = 0x8142_2418;
        } else if offset == 0x2_AAA8 || offset == 0x7_FFF8 || offset == 0x7_F800 || offset
            == 0x1_B000 || offset == 0x1_B002 || offset == 0x1_B004 || offset == 0x1_B006 {
            self.data = self.data << 8;
        }
    }
}

/// An overlay over two words of the program, switched by a command.
#[derive(Debug, Clone, Copy)]
pub struct Kof98Prot {
    pub overlay: bool,
    /// The words underneath.
    pub plain: (u16, u16),
}

impl Kof98Prot {
    /// What the first or the second word reads as.
    pub open spec fn read_of(self, offset: u32) -> u16 {
        if offset == 0 {
            if self.overlay {
                0x00C2
            } else {
                self.plain.0
            }
        } else if self.overlay {
            0x00FD
        } else {
            self.plain.1
        }
    }

    pub fn protection_r(&self, offset: u32) -> (v: u16)
        ensures
            v == self.read_of(offset),
    {
        if offset == 0 {
            if self.overlay {
                0x00C2
            } else {
                self.plain.0
            }
        } else if self.overlay {
            0x00FD
        } else {
            self.plain.1
        }
    }

    /// 90 shows the overlay, F0 hides it.
    pub open spec fn written(self, data: u16) -> Kof98Prot {
        if data == 0x0090 {
            Kof98Prot { overlay: true, ..self }
        } else if data == 0x00F0 {
            Kof98Prot { overlay: false, ..self }
        } else {
            self
        }
    }

    pub fn protection_w(&mut self, data: u16)
        ensures
            *final(self) == old(self).written(data),
    {
        if data == 0x0090 {
            self.overlay = true;
        } else if data == 0x00F0 {
            self.overlay = false;
        }
    }
}

/// A stream of bits taken from the program ROM.
#[derive(Debug, Clone, Copy)]
pub struct MslugXProt {
    pub command: u16,
    pub counter: u16,
}

/// Bit `n` of the stream, which begins at DEDD2 and is read from the top of each
/// byte; zero where there is no ROM.
pub open spec fn stream_bit(rom: Seq<u8>, n: u16) -> u16 {
    let addr = 0xD_EDD2 + (n as int / 8) % 4096;
    if addr < rom.len() {
        ((rom[addr] >> ((7 - n % 8) as u32)) & 1) as u16
    } else {
        0
    }
}

impl MslugXProt {
    /// Command 1 reads the next bit, command FFF the one before `select`.
    pub open spec fn read_of(self, rom: Seq<u8>, select: u16) -> u16 {
        if self.command == 0x0001 {
            stream_bit(rom, self.counter)
        } else if self.command == 0x0FFF {
            stream_bit(rom, select.wrapping_sub(1))
        } else {
            0
        }
    }

    pub open spec fn after_read(self) -> MslugXProt {
        if self.command == 0x0001 {
            MslugXProt { counter: self.counter.wrapping_add(1), ..self }
        } else {
            self
        }
    }

    fn bit(rom: &[u8], n: u16) -> (v: u16)
        ensures
            v == stream_bit(rom@, n),
    {
        let addr: usize = 0xD_EDD2 + (n as usize / 8) % 4096;
        if addr < rom.len() {
            ((rom[addr] >> ((7 - n % 8) as u32)) & 1) as u16
        } else {
            0
        }
    }

    pub fn protection_r(&mut self, rom: &[u8], select: u16) -> (v: u16)
        ensures
            v == old(self).read_of(rom@, select),
            *final(self) == old(self).after_read(),
    {
        if self.command == 0x0001 {
            let v: u16 = MslugXProt::bit(rom, self.counter);
            self.counter = self.counter.wrapping_add(1);
            v
        } else if self.command == 0x0FFF {
            MslugXProt::bit(rom, select.wrapping_sub(1))
        } else {
            0
        }
    }

    /// Word 0 takes the command back, words 1 and 2 add to it, word 5 starts
    /// over.
    pub open spec fn written(self, offset: u32, data: u16) -> MslugXProt {
        if offset == 0 {
            MslugXProt { command: 0, ..self }
        } else if offset == 1 || offset == 2 {
            MslugXProt { command: self.command | data, ..self }
        } else if offset == 5 {
            MslugXProt { command: 0, counter: 0 }
        } else {
            self
        }
    }

    pub fn protection_w(&mut self, offset: u32, data: u16)
        ensures
            *final(self) == old(self).written(offset, data),
    {
        if offset == 0 {
            self.command = 0;
        } else if offset == 1 || offset == 2 {
            self.command = self.command | data;
        } else if offset == 5 {
            self.command = 0;
            self.counter = 0;
        }
    }
}

/// Cartridges with a scrambled bank register.
#[derive(Debug, Clone, Copy, PartialEq, Eq, Structural)]
pub enum SmaGame {
    Kof99,
    Garou,
    GarouH,
    Mslug3,
    Mslug3a,
    Kof2000,
}

/// The address of the bank register.
pub open spec fn sma_bank_register(game: SmaGame) -> u32 {
    match game {
        SmaGame::Kof99 => 0x2F_FFF0,
        SmaGame::Garou => 0x2F_FFC0,
        SmaGame::GarouH => 0x2F_FFC0,
        SmaGame::Mslug3 => 0x2F_FFE4,
        SmaGame::Mslug3a => 0x2F_FFE4,
        SmaGame::Kof2000 => 0x2F_FFEC,
    }
}

fn bank_register(game: SmaGame) -> (a: u32)
    ensures
        a == sma_bank_register(game),
{
    match game {
        SmaGame::Kof99 => 0x2F_FFF0,
        SmaGame::Garou => 0x2F_FFC0,
        SmaGame::GarouH => 0x2F_FFC0,
        SmaGame::Mslug3 => 0x2F_FFE4,
        SmaGame::Mslug3a => 0x2F_FFE4,
        SmaGame::Kof2000 => 0x2F_FFEC,
    }
}

/// The addresses that read random numbers.
pub open spec fn sma_random_at(game: SmaGame, a: u32) -> bool {
    match game {
        SmaGame::Kof99 => a == 0x2F_FFF8 || a == 0x2F_FFFA,
        SmaGame::Garou => a == 0x2F_FFCC || a == 0x2F_FFF0,
        SmaGame::GarouH => a == 0x2F_FFCC || a == 0x2F_FFF0,
        SmaGame::Mslug3 => false,
        SmaGame::Mslug3a => false,
        SmaGame::Kof2000 => a == 0x2F_FFD8 || a == 0x2F_FFDA,
    }
}

fn random_at(game: SmaGame, a: u32) -> (b: bool)
    ensures
        b == sma_random_at(game, a),
{
    match game {
        SmaGame::Kof99 => a == 0x2F_FFF8 || a == 0x2F_FFFA,
        SmaGame::Garou => a == 0x2F_FFCC || a == 0x2F_FFF0,
        SmaGame::GarouH => a == 0x2F_FFCC || a == 0x2F_FFF0,
        SmaGame::Mslug3 => false,
        SmaGame::Mslug3a => false,
        SmaGame::Kof2000 => a == 0x2F_FFD8 || a == 0x2F_FFDA,
    }
}

/// A handshake, a random number generator, and a scrambled bank register: the
/// bits of the written word that make up the number of the bank, and where each
/// bank begins.
#[derive(Debug)]
pub struct SmaProt {
    pub game: SmaGame,
    pub rng: u16,
    pub bits: Vec<u32>,
    pub offsets: Vec<u32>,
}

/// What such a device holds.
#[verifier::ext_equal]
pub ghost struct SmaState {
    pub game: SmaGame,
    pub rng: u16,
    pub bits: Seq<u32>,
    pub offsets: Seq<u32>,
}

/// The random number after this one: shifted, with the sum of eight bits at the
/// bottom.
#[verifier::allow_in_spec]
pub fn next_random(r: u16) -> u16
    returns
        (r << 1) | (((r >> 2) ^ (r >> 3) ^ (r >> 5) ^ (r >> 6) ^ (r >> 7) ^ (r >> 11) ^ (r >> 12)
            ^ (r >> 15)) & 1),
{
    (r << 1) | (((r >> 2) ^ (r >> 3) ^ (r >> 5) ^ (r >> 6) ^ (r >> 7) ^ (r >> 11) ^ (r >> 12) ^ (r
        >> 15)) & 1)
}

impl SmaState {
    pub open spec fn wf(self) -> bool {
        &&& forall|i: int| 0 <= i < self.bits.len() ==> #[trigger] self.bits[i] < 16
        &&& forall|i: int| 0 <= i < self.offsets.len() ==> #[trigger] self.offsets[i] < 0x1000_0000
    }

    /// Where the bank chosen by `data` begins, behind the first megabyte.
    pub open spec fn bank_base_of(self, data: u16) -> int {
        let n = bitswap_of(data as u32, self.bits) as int;
        0x10_0000 + if n < self.offsets.len() {
            self.offsets[n] as int
        } else {
            0
        }
    }
}

impl View for SmaProt {
    type V = SmaState;

    open spec fn view(&self) -> SmaState {
        SmaState {
            game: self.game,
            rng: self.rng,
            bits: self.bits@,
            offsets: self.offsets@,
        }
    }
}

impl SmaProt {
    pub fn prot_9a37_r(&self) -> (v: u16)
        ensures
            v == 0x9A37,
    {
        0x9A37
    }

    pub fn random_r(&mut self) -> (v: u16)
        ensures
            v == old(self)@.rng,
            final(self)@ == (SmaState { rng: next_random(old(self)@.rng), ..old(self)@ }),
    {
        let v: u16 = self.rng;
        self.rng = next_random(v);
        v
    }

    pub fn bank_base(&self, data: u16) -> (base: usize)
        requires
            self@.wf(),
        ensures
            base == self@.bank_base_of(data),
            base < 0x2000_0000,
    {
        assert forall|i: int| 0 <= i < self.bits@.len() implies #[trigger] self.bits@[i] < 32 by {
            assert(self@.bits[i] < 16);
        }
        let n: usize = bitswap(data as u32, self.bits.as_slice()) as usize;
        if n < self.offsets.len() {
            assert(self@.offsets[n as int] < 0x1000_0000);
            0x10_0000 + self.offsets[n] as usize
        } else {
            0x10_0000
        }
    }
}

/// Eight kilobytes of RAM, some words of which convert colours and set the bank.
#[derive(Debug)]
pub struct PvcProt {
    pub ram: Vec<u16>,
}

/// A word with the bits under `mask` replaced.
#[verifier::allow_in_spec]
pub fn combined(old_word: u16, data: u16, mask: u16) -> u16
    returns
        (old_word & !mask) | (data & mask),
{
    (old_word & !mask) | (data & mask)
}

/// Green and blue of a packed colour, five bits each.
#[verifier::allow_in_spec]
pub fn unpacked_gb(pen: u16) -> u16
    returns
        ((((pen & 0x00F0) >> 3) | ((pen & 0x2000) >> 13)) << 8) | (((pen & 0x000F) << 1) | ((pen
            & 0x1000) >> 12)),
{
    ((((pen & 0x00F0) >> 3) | ((pen & 0x2000) >> 13)) << 8) | (((pen & 0x000F) << 1) | ((pen
        & 0x1000) >> 12))
}

/// Shadow and red of a packed colour.
#[verifier::allow_in_spec]
pub fn unpacked_sr(pen: u16) -> u16
    returns
        (((pen & 0x8000) >> 15) << 8) | (((pen & 0x0F00) >> 7) | ((pen & 0x4000) >> 14)),
{
    (((pen & 0x8000) >> 15) << 8) | (((pen & 0x0F00) >> 7) | ((pen & 0x4000) >> 14))
}

/// A colour packed from its parts.
#[verifier::allow_in_spec]
pub fn packed_color(gb: u16, sr: u16) -> u16
    returns
        ((gb & 0x001E) >> 1) | ((gb & 0x1E00) >> 5) | ((sr & 0x001E) << 7) | ((gb & 0x0001) << 12)
            | ((gb & 0x0100) << 5) | ((sr & 0x0001) << 14) | ((sr & 0x0100) << 7),
{
    ((gb & 0x001E) >> 1) | ((gb & 0x1E00) >> 5) | ((sr & 0x001E) << 7) | ((gb & 0x0001) << 12) | ((
    gb & 0x0100) << 5) | ((sr & 0x0001) << 14) | ((sr & 0x0100) << 7)
}

/// A packed colour unpacked and packed again is the same.
pub proof fn colors_pack_back(pen: u16)
    ensures
        packed_color(unpacked_gb(pen), unpacked_sr(pen)) == pen,
{
    crate::bits::color_round_trip(pen);
}

/// The RAM after a write.
pub open spec fn pvc_written(ram: Seq<u16>, offset: int, data: u16, mask: u16) -> Seq<u16> {
    let r = ram.update(offset, combined(ram[offset], data, mask));
    if offset == 0xFF0 {
        r.update(0xFF1, unpacked_gb(r[0xFF0])).update(0xFF2, unpacked_sr(r[0xFF0]))
    } else if offset == 0xFF4 || offset == 0xFF5 {
        r.update(0xFF6, packed_color(r[0xFF4], r[0xFF5]))
    } else if offset >= 0xFF8 {
        r.update(0xFF8, (r[0xFF8] & 0xFE00) | 0x00A0).update(0xFF9, r[0xFF9] & 0x7FFF)
    } else {
        r
    }
}

/// Where the bank begins that a write sets, if it sets one.
pub open spec fn pvc_bank(ram: Seq<u16>, offset: int, data: u16, mask: u16) -> Option<int> {
    let r = ram.update(offset, combined(ram[offset], data, mask));
    if offset >= 0xFF8 {
        Some(0x10_0000 + r[0xFF8] as int / 256 + 256 * r[0xFF9])
    } else {
        None
    }
}

impl PvcProt {
    pub fn protection_r(&self, offset: usize) -> (v: u16)
        requires
            offset < self.ram@.len(),
        ensures
            v == self.ram@[offset as int],
    {
        self.ram[offset]
    }

    pub fn protection_w(&mut self, offset: usize, data: u16, mask: u16) -> (base: Option<usize>)
        requires
            old(self).ram@.len() == 0x1000,
            offset < 0x1000,
        ensures
            final(self).ram@ == pvc_written(old(self).ram@, offset as int, data, mask),
            match base {
                Some(b) => pvc_bank(old(self).ram@, offset as int, data, mask) == Some(b as int)
                    && b < 0x2000_0000,
                None => pvc_bank(old(self).ram@, offset as int, data, mask) is None,
            },
    {
        self.ram.set(offset, combined(self.ram[offset], data, mask));
        if offset == 0xFF0 {
            let pen: u16 = self.ram[0xFF0];
            self.ram.set(0xFF1, unpacked_gb(pen));
            self.ram.set(0xFF2, unpacked_sr(pen));
            None
        } else if offset == 0xFF4 || offset == 0xFF5 {
            self.ram.set(0xFF6, packed_color(self.ram[0xFF4], self.ram[0xFF5]));
            None
        } else if offset >= 0xFF8 {
            let lo: u16 = self.ram[0xFF8];
            let hi: u16 = self.ram[0xFF9];
            self.ram.set(0xFF8, (lo & 0xFE00) | 0x00A0);
            self.ram.set(0xFF9, hi & 0x7FFF);
            Some(0x10_0000 + (lo / 256) as usize + 256 * hi as usize)
        } else {
            None
        }
    }
}

/// The device on the cartridge.
#[derive(Debug)]
pub enum CartProt {
    /// No device.
    Plain,
    FatFury2(FatFury2Prot),
    Kof98(Kof98Prot),
    MslugX(MslugXProt),
    Sma(SmaProt),
    Pvc(PvcProt),
}

/// What it holds.
#[verifier::ext_equal]
pub ghost enum ProtState {
    /// No device.
    Plain,
    FatFury2(FatFury2Prot),
    Kof98(Kof98Prot),
    MslugX(MslugXProt),
    Sma(SmaState),
    Pvc(Seq<u16>),
}

impl View for CartProt {
    type V = ProtState;

    open spec fn view(&self) -> ProtState {
        match *self {
            CartProt::Plain => ProtState::Plain,
            CartProt::FatFury2(p) => ProtState::FatFury2(p),
            CartProt::Kof98(p) => ProtState::Kof98(p),
            CartProt::MslugX(p) => ProtState::MslugX(p),
            CartProt::Sma(p) => ProtState::Sma(p@),
            CartProt::Pvc(p) => ProtState::Pvc(p.ram@),
        }
    }
}

impl ProtState {
    pub open spec fn wf(self) -> bool {
        match self {
            ProtState::Sma(p) => p.wf(),
            ProtState::Pvc(ram) => ram.len() == 0x1000,
            _ => true,
        }
    }

    /// The word that the device answers a read at the even address `a` with, if
    /// it answers.
    pub open spec fn read_of(self, a: u32, rom: Seq<u8>, select: u16) -> Option<u16> {
        match self {
            ProtState::Plain => None,
            ProtState::FatFury2(p) => Some(p.read_of(((a - 0x20_0000) / 2) as u32)),
            ProtState::Kof98(_) => None,
            ProtState::MslugX(p) => if 0x2F_FFE0 <= a && a <= 0x2F_FFEF {
                Some(p.read_of(rom, select))
            } else {
                None
            },
            ProtState::Sma(p) => if a == 0x2F_E446 {
                Some(0x9A37u16)
            } else if sma_random_at(p.game, a) {
                Some(p.rng)
            } else {
                None
            },
            ProtState::Pvc(ram) => if 0x2F_E000 <= a {
                Some(ram[(a - 0x2F_E000) / 2])
            } else {
                None
            },
        }
    }

    /// The device after a read.
    pub open spec fn after_read(self, a: u32) -> ProtState {
        match self {
            ProtState::MslugX(p) => if 0x2F_FFE0 <= a && a <= 0x2F_FFEF {
                ProtState::MslugX(p.after_read())
            } else {
                self
            },
            ProtState::Sma(p) => if a != 0x2F_E446 && sma_random_at(p.game, a) {
                ProtState::Sma(SmaState { rng: next_random(p.rng), ..p })
            } else {
                self
            },
            _ => self,
        }
    }

    /// Whether the device takes a write to the even address `a`.
    pub open spec fn claims(self, a: u32) -> bool {
        match self {
            ProtState::Plain => false,
            ProtState::FatFury2(_) => true,
            ProtState::Kof98(_) => a == 0x20_AAAA,
            ProtState::MslugX(_) => 0x2F_FFE0 <= a && a <= 0x2F_FFEF,
            ProtState::Sma(p) => a == sma_bank_register(p.game),
            ProtState::Pvc(_) => 0x2F_E000 <= a,
        }
    }

    /// The device after a write that it takes.
    pub open spec fn after_write(self, a: u32, data: u16, mask: u16) -> ProtState {
        match self {
            ProtState::FatFury2(p) => ProtState::FatFury2(
                p.written(((a - 0x20_0000) / 2) as u32),
            ),
            ProtState::Kof98(p) => ProtState::Kof98(p.written(data)),
            ProtState::MslugX(p) => ProtState::MslugX(
                p.written(((a - 0x2F_FFE0) / 2) as u32, data),
            ),
            ProtState::Pvc(ram) => ProtState::Pvc(
                pvc_written(ram, (a - 0x2F_E000) / 2, data, mask),
            ),
            _ => self,
        }
    }

    /// The bank that such a write sets, if it sets one.
    pub open spec fn bank_after(self, a: u32, data: u16, mask: u16) -> Option<int> {
        match self {
            ProtState::Sma(p) => Some(p.bank_base_of(data)),
            ProtState::Pvc(ram) => pvc_bank(ram, (a - 0x2F_E000) / 2, data, mask),
            _ => None,
        }
    }
}

impl Default for CartProt {
    fn default() -> (p: CartProt)
        ensures
            p@ == ProtState::Plain,
    {
        CartProt::Plain
    }
}

impl CartProt {
    /// Read the word at an even address of the window.
    pub fn read16(&mut self, a: u32, rom: &[u8], select: u16) -> (r: Option<u16>)
        requires
            old(self)@.wf(),
            0x20_0000 <= a <= 0x2F_FFFF,
        ensures
            final(self)@.wf(),
            r == old(self)@.read_of(a, rom@, select),
            final(self)@ == old(self)@.after_read(a),
    {
        match self {
            CartProt::Plain => None,
            CartProt::FatFury2(p) => Some(p.protection_r((a - 0x20_0000) / 2)),
            CartProt::Kof98(_) => None,
            CartProt::MslugX(p) => if 0x2F_FFE0 <= a && a <= 0x2F_FFEF {
                Some(p.protection_r(rom, select))
            } else {
                None
            },
            CartProt::Sma(p) => if a == 0x2F_E446 {
                Some(p.prot_9a37_r())
            } else if random_at(p.game, a) {
                Some(p.random_r())
            } else {
                None
            },
            CartProt::Pvc(p) => if 0x2F_E000 <= a {
                Some(p.protection_r(((a - 0x2F_E000) / 2) as usize))
            } else {
                None
            },
        }
    }

    /// Whether the device takes a write to an even address of the window.
    pub fn takes(&self, a: u32) -> (b: bool)
        ensures
            b == self@.claims(a),
    {
        match self {
            CartProt::Plain => false,
            CartProt::FatFury2(_) => true,
            CartProt::Kof98(_) => a == 0x20_AAAA,
            CartProt::MslugX(_) => 0x2F_FFE0 <= a && a <= 0x2F_FFEF,
            CartProt::Sma(p) => a == bank_register(p.game),
            CartProt::Pvc(_) => 0x2F_E000 <= a,
        }
    }

    /// Write a word, or one half of it, that the device takes; the bank that
    /// this sets.
    pub fn write16(&mut self, a: u32, data: u16, mask: u16) -> (r: Option<usize>)
        requires
            old(self)@.wf(),
            old(self)@.claims(a),
            0x20_0000 <= a <= 0x2F_FFFF,
        ensures
            final(self)@.wf(),
            final(self)@ == old(self)@.after_write(a, data, mask),
            match r {
                Some(b) => old(self)@.bank_after(a, data, mask) == Some(b as int) && b
                    < 0x2000_0000,
                None => old(self)@.bank_after(a, data, mask) is None,
            },
    {
        match self {
            CartProt::Plain => None,
            CartProt::FatFury2(p) => {
                p.protection_w((a - 0x20_0000) / 2, data);
                None
            },
            CartProt::Kof98(p) => {
                p.protection_w(data);
                None
            },
            CartProt::MslugX(p) => {
                p.protection_w((a - 0x2F_FFE0) / 2, data);
                None
            },
            CartProt::Sma(p) => Some(p.bank_base(data)),
            CartProt::Pvc(p) => p.protection_w(((a - 0x2F_E000) / 2) as usize, data, mask),
        }
    }
}

}
