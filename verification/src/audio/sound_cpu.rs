//! The sound processor running on its bus.
use vstd::prelude::*;
use crate::audio::audio_bus::{AudioBus, AudioState};
use crate::cpu::z80::exec::{can_step, first_fetch, step_spec};
use crate::cpu::z80::index::{is_index_prefix, prefixes_end, prefixes_end_by};
use crate::cpu::z80::Cpu;

verus! {

/// Whether memory holds nothing but index prefixes, so that no instruction ever
/// begins.
pub open spec fn only_prefixes(s: AudioState) -> bool {
    forall|a: u16| is_index_prefix(#[trigger] s.mem(a))
}

/// A run of prefixes that another byte follows ends there.
proof fn run_ends(c: Cpu, s: AudioState, ix: bool, k: nat)
    requires
        k < 0x1_0000,
        forall|j: int|
            0 <= j < k ==> is_index_prefix(#[trigger] s.mem(c.regs.pc.wrapping_add(j as u16))),
        !is_index_prefix(s.mem(c.regs.pc.wrapping_add(k as u16))),
    ensures
        prefixes_end_by::<AudioBus>(c, s, ix, k),
    decreases k,
{
    let (c1, s1, op) = c.with_q(0).fetch_op_spec::<AudioBus>(s);
    assert(s1 == s);
    assert(c.regs.pc.wrapping_add(0) == c.regs.pc);
    if k > 0 {
        assert(is_index_prefix(s.mem(c.regs.pc.wrapping_add(0int as u16))));
        assert forall|j: int| 0 <= j < k - 1 implies is_index_prefix(
            #[trigger] s.mem(c1.regs.pc.wrapping_add(j as u16)),
        ) by {
            assert(c1.regs.pc.wrapping_add(j as u16) == c.regs.pc.wrapping_add((j + 1) as u16));
            assert(is_index_prefix(s.mem(c.regs.pc.wrapping_add((j + 1) as u16))));
        }
        assert(c1.regs.pc.wrapping_add((k - 1) as u16) == c.regs.pc.wrapping_add(k as u16));
        run_ends(c1, s1, op == 0xDD, (k - 1) as nat);
    }
}

/// Whether an instruction begins at or after `pc`.
fn instruction_follows(bus: &AudioBus, pc: u16) -> (r: Option<u16>)
    ensures
        match r {
            Some(k) => {
                &&& !is_index_prefix(bus@.mem(pc.wrapping_add(k)))
                &&& forall|j: int|
                    0 <= j < k ==> is_index_prefix(
                        #[trigger] bus@.mem(pc.wrapping_add(j as u16)),
                    )
            },
            None => only_prefixes(bus@),
        },
{
    let mut k: u32 = 0;
    while k < 0x1_0000
        invariant
            k <= 0x1_0000,
            forall|j: int|
                0 <= j < k ==> is_index_prefix(#[trigger] bus@.mem(pc.wrapping_add(j as u16))),
        decreases 0x1_0000 - k,
    {
        if !is_index_prefix(bus.mem_read(pc.wrapping_add(k as u16))) {
            return Some(k as u16);
        }
        k = k + 1;
    }
    proof {
        assert forall|a: u16| is_index_prefix(#[trigger] bus@.mem(a)) by {
            let j = if a >= pc {
                a - pc
            } else {
                a - pc + 0x1_0000
            };
            assert(pc.wrapping_add(j as u16) == a);
            assert(is_index_prefix(bus@.mem(pc.wrapping_add(j as u16))));
        }
    }
    None
}

/// One step of the sound processor; nothing happens, and there is no answer, if
/// memory holds nothing but prefixes and no interrupt is taken.
pub fn step_sound_cpu(cpu: &mut Cpu, bus: &mut AudioBus) -> (cycles: Option<u32>)
    requires
        old(bus)@.wf(),
    ensures
        final(bus)@.wf(),
        match cycles {
            Some(n) => (*final(cpu), final(bus)@, n) == step_spec::<AudioBus>(
                *old(cpu),
                old(bus)@,
            ),
            None => *final(cpu) == *old(cpu) && final(bus)@ == old(bus)@ && only_prefixes(old(bus)@),
        },
{
    let skips: bool = cpu.nmi_pending || (cpu.irq_line && cpu.regs.iff1 && !cpu.ei_delay)
        || cpu.regs.halted;
    if !skips {
        match instruction_follows(bus, cpu.regs.pc) {
            None => {
                return None;
            },
            Some(k) => {
                proof {
                    let (c1, s1, op) = first_fetch::<AudioBus>(*cpu, bus@);
                    let pc = cpu.regs.pc;
                    assert(pc.wrapping_add(0) == pc);
                    if is_index_prefix(op) {
                        assert(k > 0);
                        assert forall|j: int| 0 <= j < k - 1 implies is_index_prefix(
                            #[trigger] bus@.mem(c1.regs.pc.wrapping_add(j as u16)),
                        ) by {
                            assert(c1.regs.pc.wrapping_add(j as u16) == pc.wrapping_add(
                                (j + 1) as u16,
                            ));
                            assert(is_index_prefix(bus@.mem(pc.wrapping_add((j + 1) as u16))));
                        }
                        assert(c1.regs.pc.wrapping_add((k - 1) as u16) == pc.wrapping_add(k));
                        run_ends(c1, s1, op == 0xDD, (k - 1) as nat);
                        assert(prefixes_end::<AudioBus>(c1, s1, op == 0xDD));
                    }
                }
            },
        }
    }
    assert(can_step::<AudioBus>(*cpu, bus@));
    Some(cpu.step(bus))
}

}
