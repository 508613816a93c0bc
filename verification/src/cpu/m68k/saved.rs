//! Registers that MOVEM saves below an address register come back when it loads
//! them from there.
use vstd::prelude::*;
use crate::cpu::m68k::bus::{long, Bus};
use crate::cpu::m68k::cpu::{fetch16_spec, CpuState, Mach, Size};
use crate::cpu::m68k::ea::{read_at_spec, reg_field, write_at_spec};
use crate::cpu::m68k::transfer::{
    any_reg, movem_load, movem_push, movem_spec, movem_store_down, with_any_reg,
};

verus! {

/// Whether a mask lists register `k`: D0 to D7, then A0 to A7.
pub open spec fn lists(mask: u16, k: int) -> bool {
    (mask >> (k as u16)) & 1 == 1
}

/// How many registers from `k` on a mask lists.
pub open spec fn listed_from(mask: u16, k: int) -> int
    decreases 16 - k,
{
    if k >= 16 {
        0
    } else {
        listed_from(mask, k + 1) + if lists(mask, k) {
            1int
        } else {
            0
        }
    }
}

/// Whether one mask is the other with its bits in reverse, as the downward store
/// takes it.
pub open spec fn is_reverse(r: u16, mask: u16) -> bool {
    forall|i: int| 0 <= i < 16 ==> #[trigger] lists(r, i) == lists(mask, 15 - i)
}

/// Whether the bus is plain memory from `lo` to `hi`, for words at even
/// addresses: a word reads as what was last written there, and nothing else
/// there changes by a read or a write.
pub open spec fn is_memory<B: Bus>(lo: int, hi: int) -> bool {
    &&& forall|s: B::St, a: u32, v: u16, b: u32|
        lo <= a && a + 2 <= hi && lo <= b && b + 2 <= hi && a % 2 == 0 && b % 2 == 0 && B::wf(s)
            ==> #[trigger] B::read16_val(B::write16_next(s, a, v), b) == if a == b {
            v
        } else {
            B::read16_val(s, b)
        }
    &&& forall|s: B::St, a: u32, b: u32|
        lo <= a && a + 2 <= hi && lo <= b && b + 2 <= hi && a % 2 == 0 && b % 2 == 0 && B::wf(s)
            ==> #[trigger] B::read16_val(B::read16_next(s, a), b) == B::read16_val(s, b)
    &&& forall|s: B::St, a: u32, v: u16|
        lo <= a && a + 2 <= hi && a % 2 == 0 && B::wf(s) ==> #[trigger] B::wf(
            B::write16_next(s, a, v),
        )
    &&& forall|s: B::St, a: u32|
        lo <= a && a + 2 <= hi && a % 2 == 0 && B::wf(s) ==> #[trigger] B::wf(B::read16_next(s, a))
}

/// Where register `k` is saved below `top`.
pub open spec fn place(top: int, mask: u16, k: int) -> int {
    top - 4 * listed_from(mask, k)
}

/// Whether the long word at `a` is `v`.
pub open spec fn holds<B: Bus>(s: B::St, a: int, v: u32) -> bool {
    long(B::read16_val(s, a as u32), B::read16_val(s, (a + 2) as u32)) == v
}

/// Whether the listed registers from `k` on are saved below `top`.
pub open spec fn saved<B: Bus>(s: B::St, c: CpuState, top: int, mask: u16, k: int) -> bool {
    forall|j: int|
        k <= j < 16 && lists(mask, j) ==> #[trigger] holds::<B>(
            s,
            place(top, mask, j),
            any_reg(c, j),
        )
}

/// Counts fall from register to register.
proof fn counts_fall(mask: u16, k: int, j: int)
    requires
        0 <= k <= j <= 16,
    ensures
        0 <= listed_from(mask, j) <= listed_from(mask, k),
        k < j && lists(mask, k) ==> listed_from(mask, j) < listed_from(mask, k),
    decreases 16 - k,
{
    if k < 16 {
        if k < j {
            counts_fall(mask, k + 1, j);
        } else {
            counts_fall(mask, k + 1, 16);
        }
    }
}

/// One register more is saved.
proof fn one_saved<B: Bus>(m: Mach<B::St>, top: int, mask: u16, k: int)
    requires
        0 <= k < 16,
        lists(mask, k),
        0 <= place(top, mask, 0),
        top <= u32::MAX,
        top % 2 == 0,
        m.c.fault is None,
        B::wf(m.s),
        is_memory::<B>(place(top, mask, 0), top),
        saved::<B>(m.s, m.c, top, mask, k + 1),
    ensures
        ({
            let (m1, a) = movem_push::<B>(
                m,
                any_reg(m.c, k),
                Size::Long,
                place(top, mask, k + 1) as u32,
            );
            &&& m1.c == m.c
            &&& a == place(top, mask, k)
            &&& B::wf(m1.s)
            &&& saved::<B>(m1.s, m.c, top, mask, k)
        }),
{
    reveal(write_at_spec);
    let (lo, a) = (place(top, mask, 0), place(top, mask, k));
    counts_fall(mask, 0, k);
    counts_fall(mask, k, k + 1);
    let v = any_reg(m.c, k);
    crate::bits::word_pair(v, 0, 0);
    let s1 = B::write16_next(m.s, (a + 2) as u32, (v & 0xFFFF) as u16);
    let s2 = B::write16_next(s1, a as u32, (v >> 16) as u16);
    assert(B::wf(s1));
    assert(B::wf(s2));
    assert(B::read16_val(s2, a as u32) == (v >> 16) as u16);
    assert(B::read16_val(s2, (a + 2) as u32) == B::read16_val(s1, (a + 2) as u32));
    assert(holds::<B>(s2, a, v));
    assert forall|j: int| k <= j < 16 && lists(mask, j) implies #[trigger] holds::<B>(
        s2,
        place(top, mask, j),
        any_reg(m.c, j),
    ) by {
        if j > k {
            counts_fall(mask, k, j);
            counts_fall(mask, 0, j);
            counts_fall(mask, j, 16);
            counts_fall(mask, j, j + 1);
            counts_fall(mask, j + 1, 16);
            counts_fall(mask, k + 1, j);
            let b = place(top, mask, j);
            assert(a + 4 <= b && b + 4 <= top);
            assert(holds::<B>(m.s, b, any_reg(m.c, j)));
            assert(B::read16_val(s1, b as u32) == B::read16_val(m.s, b as u32));
            assert(B::read16_val(s1, (b + 2) as u32) == B::read16_val(m.s, (b + 2) as u32));
            assert(B::read16_val(s2, b as u32) == B::read16_val(s1, b as u32));
            assert(B::read16_val(s2, (b + 2) as u32) == B::read16_val(s1, (b + 2) as u32));
        }
    }
}

/// The downward store saves every listed register and changes none.
proof fn all_saved<B: Bus>(m: Mach<B::St>, top: int, r: u16, mask: u16, i: u16)
    requires
        i <= 16,
        is_reverse(r, mask),
        0 <= place(top, mask, 0),
        top <= u32::MAX,
        top % 2 == 0,
        m.c.fault is None,
        B::wf(m.s),
        is_memory::<B>(place(top, mask, 0), top),
        saved::<B>(m.s, m.c, top, mask, 16 - i),
    ensures
        ({
            let (m1, a) = movem_store_down::<B>(
                m,
                r,
                Size::Long,
                place(top, mask, 16 - i) as u32,
                i,
            );
            &&& m1.c == m.c
            &&& a == place(top, mask, 0)
            &&& B::wf(m1.s)
            &&& saved::<B>(m1.s, m.c, top, mask, 0)
        }),
    decreases 16 - i,
{
    counts_fall(mask, 0, 16 - i);
    if i < 16 {
        let k = 15 - i;
        assert(lists(r, i as int) == lists(mask, k));
        assert((i as int) as u16 == i);
        if lists(mask, k) {
            one_saved::<B>(m, top, mask, k);
            let (m1, a) = movem_push::<B>(
                m,
                any_reg(m.c, k),
                Size::Long,
                place(top, mask, k + 1) as u32,
            );
            all_saved::<B>(m1, top, r, mask, (i + 1) as u16);
        } else {
            assert(place(top, mask, k) == place(top, mask, k + 1));
            assert(saved::<B>(m.s, m.c, top, mask, k));
            all_saved::<B>(m, top, r, mask, (i + 1) as u16);
        }
    }
}

/// Two processors with the same data and address registers, but for those that a
/// mask lists from register `k` on.
pub open spec fn same_but_listed(c: CpuState, d: CpuState, mask: u16, k: int) -> bool {
    forall|j: int|
        0 <= j < 16 && !(k <= j && lists(mask, j)) ==> #[trigger] any_reg(c, j) == any_reg(d, j)
}

/// The upward load brings every listed register back.
proof fn all_loaded<B: Bus>(m: Mach<B::St>, c: CpuState, top: int, mask: u16, i: u16)
    requires
        i <= 16,
        0 <= place(top, mask, 0),
        top <= u32::MAX,
        top % 2 == 0,
        m.c.fault is None,
        m.c.d.len() == 8,
        m.c.a.len() == 8,
        B::wf(m.s),
        is_memory::<B>(place(top, mask, 0), top),
        saved::<B>(m.s, c, top, mask, i as int),
        same_but_listed(m.c, c, mask, i as int),
    ensures
        ({
            let (m1, a) = movem_load::<B>(
                m,
                mask,
                Size::Long,
                place(top, mask, i as int) as u32,
                i,
                false,
            );
            &&& m1.c == (CpuState { d: m1.c.d, a: m1.c.a, ..m.c })
            &&& m1.c.d.len() == 8
            &&& m1.c.a.len() == 8
            &&& a == top
            &&& B::wf(m1.s)
            &&& same_but_listed(m1.c, c, mask, 16)
        }),
    decreases 16 - i,
{
    counts_fall(mask, 0, i as int);
    if i < 16 {
        let k = i as int;
        assert((i as int) as u16 == i);
        counts_fall(mask, k, 16);
        counts_fall(mask, k, k + 1);
        counts_fall(mask, k + 1, 16);
        if lists(mask, k) {
            reveal(read_at_spec);
            let a = place(top, mask, k);
            assert(holds::<B>(m.s, a, any_reg(c, k)));
            assert(place(top, mask, k + 1) == a + 4);
            let s1 = B::read16_next(m.s, a as u32);
            let s2 = B::read16_next(s1, (a + 2) as u32);
            assert(B::wf(s1));
            assert(B::wf(s2));
            let (m1, v) = read_at_spec::<B>(m, a as u32, Size::Long);
            assert(B::read16_val(s1, (a + 2) as u32) == B::read16_val(m.s, (a + 2) as u32));
            assert(m1 == m.with_s(s2) && v == any_reg(c, k));
            let m2 = m1.with_c(with_any_reg(m1.c, k, v));
            assert forall|j: int|
                k + 1 <= j < 16 && lists(mask, j) implies #[trigger] holds::<B>(
                s2,
                place(top, mask, j),
                any_reg(c, j),
            ) by {
                counts_fall(mask, 0, j);
                counts_fall(mask, j, j + 1);
                counts_fall(mask, j + 1, 16);
                let b = place(top, mask, j);
                assert(holds::<B>(m.s, b, any_reg(c, j)));
                assert(B::read16_val(s1, b as u32) == B::read16_val(m.s, b as u32));
                assert(B::read16_val(s1, (b + 2) as u32) == B::read16_val(m.s, (b + 2) as u32));
                assert(B::read16_val(s2, b as u32) == B::read16_val(s1, b as u32));
                assert(B::read16_val(s2, (b + 2) as u32) == B::read16_val(s1, (b + 2) as u32));
            }
            assert forall|j: int|
                0 <= j < 16 && !(k + 1 <= j && lists(mask, j)) implies #[trigger] any_reg(m2.c, j)
                == any_reg(c, j) by {
                if j != k {
                    assert(any_reg(m.c, j) == any_reg(c, j));
                }
            }
            all_loaded::<B>(m2, c, top, mask, (i + 1) as u16);
        } else {
            assert(place(top, mask, k) == place(top, mask, k + 1));
            all_loaded::<B>(m, c, top, mask, (i + 1) as u16);
        }
    }
}

/// MOVEM of long words downwards from register A`n`.
pub open spec fn saves_below(op: u16, n: int) -> bool {
    op & 0x0400 == 0 && op & 0x0040 != 0 && (op >> 3) & 7 == 4 && reg_field(op) == n
}

/// MOVEM of long words upwards from register A`n`.
pub open spec fn loads_above(op: u16, n: int) -> bool {
    op & 0x0400 != 0 && op & 0x0040 != 0 && (op >> 3) & 7 == 3 && reg_field(op) == n
}

/// Which opcodes these are.
pub proof fn saving_opcodes(n: u16)
    requires
        n < 8,
    ensures
        saves_below(0x48E0 | n, n as int),
        loads_above(0x4CD8 | n, n as int),
{
    crate::bits::saving_opcodes(n);
}

/// Registers saved below an address register are restored from there: the store
/// moves the address register down by four bytes for each register and changes
/// no other; whatever the listed registers hold by then, the load gives every
/// data and address register, that one as well, what it held before the store.
/// Neither is an address error.
///
/// `m` is the machine before the store, whose mask word reads as `mask` in
/// reverse, and `q` the machine before the load, whose mask word reads as `mask`.
pub proof fn saved_registers_are_restored<B: Bus>(
    m: Mach<B::St>,
    q: Mach<B::St>,
    store: u16,
    load: u16,
    mask: u16,
    n: int,
)
    requires
        0 <= n < 8,
        saves_below(store, n),
        loads_above(load, n),
        !lists(mask, 8 + n),
        m.c.d.len() == 8,
        m.c.a.len() == 8,
        m.c.fault is None,
        m.c.a[n] % 2 == 0,
        m.c.a[n] >= 4 * listed_from(mask, 0),
        is_memory::<B>(m.c.a[n] - 4 * listed_from(mask, 0), m.c.a[n] as int),
        is_reverse(fetch16_spec::<B>(m).1, mask),
        B::wf(fetch16_spec::<B>(m).0.s),
        ({
            let p = movem_spec::<B>(m, store);
            let t = fetch16_spec::<B>(q).0.s;
            &&& q.c.d.len() == 8
            &&& q.c.a.len() == 8
            &&& q.c.fault is None
            &&& same_but_listed(q.c, p.c, mask, 0)
            &&& B::wf(t)
            &&& fetch16_spec::<B>(q).1 == mask
            &&& forall|a: u32|
                p.c.a[n] <= a < m.c.a[n] && a % 2 == 0 ==> #[trigger] B::read16_val(t, a)
                    == B::read16_val(p.s, a)
        }),
    ensures
        ({
            let p = movem_spec::<B>(m, store);
            let z = movem_spec::<B>(q, load);
            &&& p.c.a[n] == m.c.a[n] - 4 * listed_from(mask, 0)
            &&& p.c.d == m.c.d
            &&& p.c.a == m.c.a.update(n, p.c.a[n])
            &&& p.c.fault is None
            &&& z.c.d == m.c.d
            &&& z.c.a == m.c.a
            &&& z.c.fault is None
        }),
{
    let top = m.c.a[n] as int;
    let (m1, r) = fetch16_spec::<B>(m);
    counts_fall(mask, 0, 16);
    all_saved::<B>(m1, top, r, mask, 0);
    let (m2, _) = movem_store_down::<B>(m1, r, Size::Long, m.c.a[n], 0);
    let p = movem_spec::<B>(m, store);
    assert(p == m2.with_c(m2.c.with_a(n, place(top, mask, 0) as u32)));
    let (q1, _) = fetch16_spec::<B>(q);
    assert(any_reg(q.c, 8 + n) == any_reg(p.c, 8 + n));
    assert forall|j: int| 0 <= j < 16 && lists(mask, j) implies #[trigger] holds::<B>(
        q1.s,
        place(top, mask, j),
        any_reg(p.c, j),
    ) by {
        counts_fall(mask, 0, j);
        counts_fall(mask, j, j + 1);
        counts_fall(mask, j + 1, 16);
        let b = place(top, mask, j);
        assert(holds::<B>(m2.s, b, any_reg(m1.c, j)));
        assert(B::read16_val(q1.s, b as u32) == B::read16_val(p.s, b as u32));
        assert(B::read16_val(q1.s, (b + 2) as u32) == B::read16_val(p.s, (b + 2) as u32));
    }
    assert forall|j: int| 0 <= j < 16 && !(0 <= j && lists(mask, j)) implies #[trigger] any_reg(
        q1.c,
        j,
    ) == any_reg(p.c, j) by {
        assert(any_reg(q.c, j) == any_reg(p.c, j));
    }
    all_loaded::<B>(q1, p.c, top, mask, 0);
    let z = movem_spec::<B>(q, load);
    assert forall|j: int| 0 <= j < 8 implies z.c.d[j] == m.c.d[j] by {
        let (q2, _) = movem_load::<B>(q1, mask, Size::Long, q1.c.a[n], 0, false);
        assert(any_reg(q2.c, j) == any_reg(p.c, j));
    }
    assert forall|j: int| 0 <= j < 8 implies z.c.a[j] == m.c.a[j] by {
        let (q2, _) = movem_load::<B>(q1, mask, Size::Long, q1.c.a[n], 0, false);
        assert(any_reg(q2.c, 8 + j) == any_reg(p.c, 8 + j));
    }
    assert(z.c.d =~= m.c.d);
    assert(z.c.a =~= m.c.a);
}

}
