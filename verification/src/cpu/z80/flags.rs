//! Layout of the Z80 flag register F.
//!
//! ```text
//!   bit 7  S    sign: bit 7 of the result
//!   bit 6  Z    zero
//!   bit 5  Y    copy of bit 5 of the result (undocumented)
//!   bit 4  H    half carry, out of bit 3
//!   bit 3  X    copy of bit 3 of the result (undocumented)
//!   bit 2  P/V  parity after logic, overflow after arithmetic
//!   bit 1  N    set by subtractions
//!   bit 0  C    carry
//! ```
use vstd::prelude::*;

verus! {

pub const FC: u8 = 0x01;

pub const FN: u8 = 0x02;

pub const FP: u8 = 0x04;

pub const FX: u8 = 0x08;

pub const FH: u8 = 0x10;

pub const FY: u8 = 0x20;

pub const FZ: u8 = 0x40;

pub const FS: u8 = 0x80;

/// One flag of F.
#[derive(Debug, Clone, Copy, PartialEq, Eq)]
pub enum Flag {
    C,
    N,
    P,
    X,
    H,
    Y,
    Z,
    S,
}

impl Flag {
    /// The bit of F that holds the flag.
    #[must_use]
    #[verifier::allow_in_spec]
    pub fn mask(self) -> u8
        returns
            (match self {
                Flag::C => FC,
                Flag::N => FN,
                Flag::P => FP,
                Flag::X => FX,
                Flag::H => FH,
                Flag::Y => FY,
                Flag::Z => FZ,
                Flag::S => FS,
            }),
    {
        match self {
            Flag::C => FC,
            Flag::N => FN,
            Flag::P => FP,
            Flag::X => FX,
            Flag::H => FH,
            Flag::Y => FY,
            Flag::Z => FZ,
            Flag::S => FS,
        }
    }
}

/// How many bits of the binary expansion of `n` are one.
pub open spec fn ones(n: nat) -> nat
    decreases n,
{
    if n == 0 {
        0
    } else {
        n % 2 + ones(n / 2)
    }
}

/// The parity flag of a byte: set exactly for an even number of one bits.
pub open spec fn parity_of(x: int) -> u8 {
    if ones(x as nat) % 2 == 0 {
        FP
    } else {
        0
    }
}

/// `PARITY[x]` is the parity flag of `x`.
pub const PARITY: [u8; 256] = [
    4, 0, 0, 4, 0, 4, 4, 0, 0, 4, 4, 0, 4, 0, 0, 4,
    0, 4, 4, 0, 4, 0, 0, 4, 4, 0, 0, 4, 0, 4, 4, 0,
    0, 4, 4, 0, 4, 0, 0, 4, 4, 0, 0, 4, 0, 4, 4, 0,
    4, 0, 0, 4, 0, 4, 4, 0, 0, 4, 4, 0, 4, 0, 0, 4,
    0, 4, 4, 0, 4, 0, 0, 4, 4, 0, 0, 4, 0, 4, 4, 0,
    4, 0, 0, 4, 0, 4, 4, 0, 0, 4, 4, 0, 4, 0, 0, 4,
    4, 0, 0, 4, 0, 4, 4, 0, 0, 4, 4, 0, 4, 0, 0, 4,
    0, 4, 4, 0, 4, 0, 0, 4, 4, 0, 0, 4, 0, 4, 4, 0,
    0, 4, 4, 0, 4, 0, 0, 4, 4, 0, 0, 4, 0, 4, 4, 0,
    4, 0, 0, 4, 0, 4, 4, 0, 0, 4, 4, 0, 4, 0, 0, 4,
    4, 0, 0, 4, 0, 4, 4, 0, 0, 4, 4, 0, 4, 0, 0, 4,
    0, 4, 4, 0, 4, 0, 0, 4, 4, 0, 0, 4, 0, 4, 4, 0,
    4, 0, 0, 4, 0, 4, 4, 0, 0, 4, 4, 0, 4, 0, 0, 4,
    0, 4, 4, 0, 4, 0, 0, 4, 4, 0, 0, 4, 0, 4, 4, 0,
    0, 4, 4, 0, 4, 0, 0, 4, 4, 0, 0, 4, 0, 4, 4, 0,
    4, 0, 0, 4, 0, 4, 4, 0, 0, 4, 4, 0, 4, 0, 0, 4,
];

/// Halving an index drops its last bit, which decides whether the entry flips.
proof fn parity_table_doubles()
    ensures
        forall|k: int|
            0 <= k < 128 ==> #[trigger] PARITY@[2 * k] == PARITY@[k] && PARITY@[2 * k + 1] == FP
                - PARITY@[k],
{
}

/// Every entry of `PARITY` is the parity flag of its index.
pub proof fn parity_table_is_parity(x: int)
    requires
        0 <= x < 256,
    ensures
        PARITY@[x] == parity_of(x),
    decreases x,
{
    if x > 0 {
        parity_table_is_parity(x / 2);
        parity_table_doubles();
        assert(PARITY@[2 * (x / 2)] == PARITY@[x / 2]);
        assert(x == 2 * (x / 2) || x == 2 * (x / 2) + 1);
        assert(ones(x as nat) == x as nat % 2 + ones(x as nat / 2));
    } else {
        assert(ones(0) == 0);
    }
}

/// The parity flag of `x`, looked up.
#[must_use]
pub fn parity(x: u8) -> (r: u8)
    ensures
        r == parity_of(x as int),
{
    proof {
        parity_table_is_parity(x as int);
    }
    let t: [u8; 256] = PARITY;
    t[x as usize]
}

/// Compute the parity flag of every byte.
#[must_use]
pub fn parity_table() -> (t: [u8; 256])
    ensures
        forall|x: int| 0 <= x < 256 ==> #[trigger] t@[x] == parity_of(x),
        t@ == PARITY@,
{
    let mut t: [u8; 256] = [0u8; 256];
    let mut i: usize = 0;
    while i < 256
        invariant
            i <= 256,
            forall|x: int| 0 <= x < i ==> #[trigger] t@[x] == parity_of(x),
        decreases 256 - i,
    {
        let mut n: usize = i;
        let mut even: bool = true;
        while n != 0
            invariant
                i < 256,
                n <= i,
                even == ((ones(i as nat) - ones(n as nat)) % 2 == 0),
                ones(n as nat) <= ones(i as nat),
            decreases n,
        {
            if n % 2 == 1 {
                even = !even;
            }
            n = n / 2;
        }
        t[i] = if even {
            FP
        } else {
            0
        };
        i = i + 1;
    }
    assert forall|x: int| 0 <= x < 256 implies #[trigger] t@[x] == PARITY@[x] by {
        parity_table_is_parity(x);
    }
    assert(t@ =~= PARITY@);
    t
}

/// `f` with the bits of `mask` set if `on` holds.
#[verifier::allow_in_spec]
pub fn set_if(f: u8, mask: u8, on: bool) -> u8
    returns
        (if on {
            f | mask
        } else {
            f
        }),
{
    if on {
        f | mask
    } else {
        f
    }
}

/// S, Z, Y and X of a result byte.
#[must_use]
#[verifier::allow_in_spec]
pub fn sz53(r: u8) -> u8
    returns
        set_if(r & (FS | FY | FX), FZ, r == 0),
{
    set_if(r & (FS | FY | FX), FZ, r == 0)
}

/// S, Z, Y, X and the parity flag of a result byte.
pub open spec fn sz53p_of(r: u8) -> u8 {
    sz53(r) | parity_of(r as int)
}

/// S, Z, Y, X and the parity flag of a result byte.
#[must_use]
pub fn sz53p(r: u8) -> (f: u8)
    ensures
        f == sz53p_of(r),
{
    sz53(r) | parity(r)
}

}
