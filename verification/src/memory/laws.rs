//! What holds of the main bus over several accesses.
use vstd::prelude::*;
use crate::cpu::m68k::saved::is_memory;
use crate::cpu::m68k::Bus;
use crate::memory::bus::{BusState, NeoGeoBus, WATCHDOG_TIMEOUT_68K};
use crate::memory::prot::{ProtState, SmaState};

verus! {

/// Work RAM gives back what was written, at every repetition of the address, and
/// its other bytes stay.
pub proof fn work_ram_reads_back(s: BusState, a: u32, b: u32, v: u8)
    requires
        s.wf(),
        0x10_0000 <= a < 0x20_0000,
        0x10_0000 <= b < 0x20_0000,
    ensures
        s.byte_written(a, v).byte(b) == if a % 0x1_0000 == b % 0x1_0000 {
            v
        } else {
            s.byte(b)
        },
{
}

/// A word written to work RAM is read back.
#[verifier::rlimit(90)]
pub proof fn work_ram_words_read_back(s: BusState, a: u32, v: u16)
    requires
        s.wf(),
        0x10_0000 <= a < 0x20_0000,
        a % 2 == 0,
    ensures
        s.word_written(a, v).word(a) == v,
        s.word_written(a, v).word_read(a) == s.word_written(a, v),
{
    crate::bits::byte_pair(v, 0, 0);
    crate::bits::low_byte(v);
}

/// A word access to work RAM touches two bytes of it and nothing else.
#[verifier::rlimit(90)]
proof fn work_ram_words(s: BusState, a: u32, v: u16)
    requires
        s.wf(),
        0x10_0000 <= a < 0x11_0000,
        a % 2 == 0,
    ensures
        s.word_written(a, v) == (BusState {
            work_ram: s.work_ram.update(a - 0x10_0000, (v >> 8) as u8).update(
                a - 0x10_0000 + 1,
                v as u8,
            ),
            ..s
        }),
        s.word_read(a) == s,
        s.word(a) == ((s.work_ram[a - 0x10_0000] as u16) << 8) | (s.work_ram[a - 0x10_0000
            + 1] as u16),
{
}

/// A word of work RAM, by the bytes.
spec fn ram_word(ram: Seq<u8>, i: int) -> u16 {
    ((ram[i] as u16) << 8) | (ram[i + 1] as u16)
}

proof fn ram_words_are_apart(ram: Seq<u8>, i: int, v: u16, j: int)
    requires
        0 <= i < ram.len() - 1,
        0 <= j < ram.len() - 1,
        i % 2 == 0,
        j % 2 == 0,
    ensures
        ram_word(ram.update(i, (v >> 8) as u8).update(i + 1, v as u8), j) == if i == j {
            v
        } else {
            ram_word(ram, j)
        },
{
    crate::bits::byte_pair(v, 0, 0);
    crate::bits::low_byte(v);
}

#[verifier::rlimit(90)]
proof fn work_ram_word(s: BusState, a: u32)
    requires
        s.wf(),
        0x10_0000 <= a < 0x11_0000,
        a % 2 == 0,
    ensures
        s.word(a) == ram_word(s.work_ram, a - 0x10_0000),
{
    work_ram_words(s, a, 0);
}

proof fn other_ram_is_sound(s: BusState, ram: Seq<u8>)
    requires
        s.wf(),
        ram.len() == s.work_ram.len(),
    ensures
        (BusState { work_ram: ram, ..s }).wf(),
{
}

#[verifier::rlimit(90)]
proof fn written_work_ram(s: BusState, a: u32, v: u16)
    requires
        s.wf(),
        0x10_0000 <= a < 0x11_0000,
        a % 2 == 0,
    ensures
        s.word_written(a, v).wf(),
        s.word_written(a, v).work_ram == s.work_ram.update(a - 0x10_0000, (v >> 8) as u8).update(
            a - 0x10_0000 + 1,
            v as u8,
        ),
{
    let ram = s.work_ram.update(a - 0x10_0000, (v >> 8) as u8).update(
        a - 0x10_0000 + 1,
        v as u8,
    );
    other_ram_is_sound(s, ram);
    work_ram_words(s, a, v);
}

#[verifier::rlimit(90)]
proof fn written_work_ram_word(s: BusState, a: u32, v: u16, b: u32)
    requires
        s.wf(),
        0x10_0000 <= a < 0x11_0000,
        0x10_0000 <= b < 0x11_0000,
        a % 2 == 0,
        b % 2 == 0,
    ensures
        s.word_written(a, v).wf(),
        s.word_written(a, v).word(b) == ram_word(
            s.work_ram.update(a - 0x10_0000, (v >> 8) as u8).update(a - 0x10_0000 + 1, v as u8),
            b - 0x10_0000,
        ),
{
    written_work_ram(s, a, v);
    work_ram_word(s.word_written(a, v), b);
}

#[verifier::rlimit(90)]
proof fn other_words_stay(s: BusState, a: u32, v: u16, b: u32)
    requires
        s.wf(),
        0x10_0000 <= a < 0x11_0000,
        0x10_0000 <= b < 0x11_0000,
        a % 2 == 0,
        b % 2 == 0,
    ensures
        s.word_written(a, v).wf(),
        s.word_written(a, v).word(b) == if a == b {
            v
        } else {
            s.word(b)
        },
{
    written_work_ram_word(s, a, v, b);
    work_ram_word(s, b);
    ram_words_are_apart(s.work_ram, a - 0x10_0000, v, b - 0x10_0000);
}

/// Sixty-four kilobytes of work RAM are plain memory to the main processor, so
/// that registers saved there come back.
#[verifier::rlimit(90)]
pub proof fn work_ram_is_memory(lo: int, hi: int)
    requires
        0x10_0000 <= lo,
        hi <= 0x11_0000,
    ensures
        is_memory::<NeoGeoBus>(lo, hi),
{
    assert forall|s: BusState, a: u32, v: u16|
        lo <= a && a + 2 <= hi && a % 2 == 0 && s.wf() implies #[trigger] NeoGeoBus::wf(
        NeoGeoBus::write16_next(s, a, v),
    ) by {
        other_words_stay(s, a, v, a);
    }
    assert forall|s: BusState, a: u32|
        lo <= a && a + 2 <= hi && a % 2 == 0 && s.wf() implies #[trigger] NeoGeoBus::wf(
        NeoGeoBus::read16_next(s, a),
    ) by {
        work_ram_words(s, a, 0);
    }
    assert forall|s: BusState, a: u32, b: u32|
        lo <= a && a + 2 <= hi && lo <= b && b + 2 <= hi && a % 2 == 0 && b % 2 == 0 && s.wf()
            implies #[trigger] NeoGeoBus::read16_val(NeoGeoBus::read16_next(s, a), b)
        == NeoGeoBus::read16_val(s, b) by {
        work_ram_words(s, a, 0);
    }
    assert forall|s: BusState, a: u32, v: u16, b: u32|
        lo <= a && a + 2 <= hi && lo <= b && b + 2 <= hi && a % 2 == 0 && b % 2 == 0 && s.wf()
            implies #[trigger] NeoGeoBus::read16_val(NeoGeoBus::write16_next(s, a, v), b) == if a
        == b {
        v
    } else {
        NeoGeoBus::read16_val(s, b)
    } by {
        other_words_stay(s, a, v, b);
    }
}

/// ROM cannot be written.
pub proof fn rom_is_read_only(s: BusState, a: u32, v: u8)
    requires
        a < 0x10_0000 || 0xC0_0000 <= a < 0xD0_0000,
    ensures
        s.byte_written(a, v) == s,
{
}

/// Backup RAM keeps its contents while it is locked, and gives back what was
/// written while it is not.
pub proof fn backup_ram_is_locked(s: BusState, a: u32, v: u8)
    requires
        s.wf(),
        0xD0_0000 <= a < 0xE0_0000,
    ensures
        s.latch & 0x40 == 0 ==> s.byte_written(a, v) == s,
        s.latch & 0x40 != 0 ==> s.byte_written(a, v).byte(a) == v,
{
}

/// The memory card is written only while it is there and open, and only on odd
/// bytes; then it gives back what was written.
pub proof fn memory_card_is_locked(s: BusState, a: u32, v: u8)
    requires
        s.wf(),
        0x80_0000 <= a < 0xC0_0000,
    ensures
        !(s.memcard_present && s.card_open() && a % 2 == 1) ==> s.byte_written(a, v) == s,
        s.memcard_present && s.card_open() && a % 2 == 1 ==> s.byte_written(a, v).byte(a) == v,
        a % 2 == 0 ==> s.byte(a) == 0xFF,
{
}

/// The palette gives back what was written as long as the bank is the same; the
/// other bank stays.
pub proof fn palette_banks_are_apart(s: BusState, a: u32, v: u8, latch: u8)
    requires
        s.wf(),
        0x40_0000 <= a < 0x80_0000,
    ensures
        s.byte_written(a, v).byte(a) == v,
        (s.latch & 0x80 == 0) != (latch & 0x80 == 0) ==> (BusState {
            latch,
            ..s.byte_written(a, v)
        }).byte(a) == (BusState { latch, ..s }).byte(a),
{
}

/// Each switch of the latch is turned by its own address, and the others stay.
pub proof fn switches_turn_alone(s: BusState, a: u32, v: u8, i: u32)
    requires
        a / 256 == 0x3A00,
        i < 8,
    ensures
        ({
            let t = s.byte_written(a, v);
            (t.latch >> i) & 1 == if i == (a / 2) % 8 {
                if (a / 16) % 2 == 1 {
                    1u8
                } else {
                    0u8
                }
            } else {
                (s.latch >> i) & 1
            }
        }),
        (a / 2) % 8 == 1 ==> s.byte_written(a, v).bios_at_zero == ((a / 16) % 2 == 0),
{
    crate::bits::one_switch(s.latch, (a / 2) % 8, i);
}

/// A word that a protection device answers reaches it once.
pub proof fn devices_see_words_once(s: BusState, a: u32, v: u16)
    requires
        0x20_0000 <= a < 0x30_0000,
        a % 2 == 0,
    ensures
        s.prot_read(a) is Some ==> s.word(a) == s.prot_read(a)->0 && s.word_read(a)
            == s.prot_read_done(a),
        s.prot.claims(a) ==> s.word_written(a, v) == s.prot_written(a, v, 0xFFFF),
{
    assert(a % 0x100_0000 == a);
    assert((a - a % 2) as u32 == a);
}

/// A word read of the random number generator moves it one step.
pub proof fn random_numbers_step_once(s: BusState, p: SmaState, a: u32)
    requires
        s.prot == ProtState::Sma(p),
        0x20_0000 <= a < 0x30_0000,
        a % 2 == 0,
        a != 0x2F_E446,
        crate::memory::prot::sma_random_at(p.game, a),
    ensures
        s.word(a) == p.rng,
        s.word_read(a).prot == ProtState::Sma(
            SmaState { rng: crate::memory::prot::next_random(p.rng), ..p },
        ),
{
}

/// A sound command reaches the latch and is pending.
pub proof fn sound_commands_are_pending(s: BusState, v: u8)
    ensures
        s.byte_written(0x32_0000, v).sound_latch == v,
        s.byte_written(0x32_0000, v).sound_latch_pending,
{
}

/// The sum of the first `n` numbers.
pub open spec fn total(cs: Seq<u32>, n: int) -> int
    decreases n,
{
    if n <= 0 {
        0
    } else {
        total(cs, n - 1) + cs[n - 1]
    }
}

/// The bus after the watchdog has counted the first `n` of some numbers.
pub open spec fn counted(s: BusState, cs: Seq<u32>, n: int) -> BusState
    decreases n,
{
    if n <= 0 {
        s
    } else {
        counted(s, cs, n - 1).watched(cs[n - 1])
    }
}

/// Once reloaded, the watchdog has bitten exactly when the cycles counted since
/// then have reached the limit.
pub proof fn watchdog_bites_in_time(s: BusState, cs: Seq<u32>, n: int)
    requires
        !s.watchdog_expired,
        0 <= n <= cs.len(),
    ensures
        counted(s.kicked(), cs, n).watchdog_expired <==> total(cs, n) >= WATCHDOG_TIMEOUT_68K,
        total(cs, n) < WATCHDOG_TIMEOUT_68K ==> counted(s.kicked(), cs, n).watchdog_cycles
            == WATCHDOG_TIMEOUT_68K - total(cs, n),
        0 <= total(cs, n),
    decreases n,
{
    if n > 0 {
        watchdog_bites_in_time(s, cs, n - 1);
    }
}

/// Writing the watchdog's address reloads it.
pub proof fn writes_reload_the_watchdog(s: BusState, v: u8)
    ensures
        s.byte_written(0x30_0001, v) == s.kicked(),
{
}

}
