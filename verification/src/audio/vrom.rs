//! Which sample memory a ROM belongs to, by the name of its file.
use vstd::prelude::*;
use crate::text::lower;

verus! {

#[derive(Debug, Clone, Copy, PartialEq, Eq, Structural)]
pub enum VRomKind {
    /// Samples of ADPCM-A.
    AdpcmA,
    /// Samples of ADPCM-B.
    AdpcmB,
    /// Either, or both.
    Shared,
}

pub open spec fn is_v(c: char) -> bool {
    c == 'v' || c == 'V'
}

pub open spec fn is_digit(c: char) -> bool {
    '0' <= c && c <= '9'
}

/// Names that end in `.v` and two digits: the first is the memory. Names that
/// end in `.v` and one digit belong to ADPCM-A; all others are shared.
pub open spec fn kind_of(name: Seq<char>) -> VRomKind {
    let n = name.len();
    if n >= 4 && name[n - 4] == '.' && is_v(name[n - 3]) && is_digit(name[n - 2]) && is_digit(
        name[n - 1],
    ) {
        if name[n - 2] == '1' {
            VRomKind::AdpcmA
        } else if name[n - 2] == '2' {
            VRomKind::AdpcmB
        } else {
            VRomKind::Shared
        }
    } else if n >= 3 && name[n - 3] == '.' && is_v(name[n - 2]) && is_digit(name[n - 1]) {
        VRomKind::AdpcmA
    } else {
        VRomKind::Shared
    }
}

fn digit(c: char) -> (b: bool)
    ensures
        b == is_digit(c),
{
    '0' <= c && c <= '9'
}

pub fn classify_v_rom(filename: &str) -> (kind: VRomKind)
    ensures
        kind == kind_of(filename@),
{
    let n: usize = filename.unicode_len();
    if n < 3 {
        return VRomKind::Shared;
    }
    let last: char = filename.get_char(n - 1);
    let second: char = filename.get_char(n - 2);
    let third: char = filename.get_char(n - 3);
    if n >= 4 && filename.get_char(n - 4) == '.' && (third == 'v' || third == 'V') && digit(second)
        && digit(last) {
        if second == '1' {
            VRomKind::AdpcmA
        } else if second == '2' {
            VRomKind::AdpcmB
        } else {
            VRomKind::Shared
        }
    } else if third == '.' && (second == 'v' || second == 'V') && digit(last) {
        VRomKind::AdpcmA
    } else {
        VRomKind::Shared
    }
}

/// The data of the first `n` ROMs of a kind, one after the other.
pub open spec fn data_of(roms: Seq<(String, Vec<u8>)>, kind: VRomKind, n: int) -> Seq<u8>
    decreases n,
{
    if n <= 0 {
        seq![]
    } else if kind_of(roms[n - 1].0@) == kind {
        data_of(roms, kind, n - 1) + roms[n - 1].1@
    } else {
        data_of(roms, kind, n - 1)
    }
}

/// Whether one of the first `n` ROMs names its memory.
pub open spec fn labelled(roms: Seq<(String, Vec<u8>)>, n: int) -> bool {
    exists|i: int| 0 <= i < n && kind_of((#[trigger] roms[i]).0@) != VRomKind::Shared
}

/// The two sample memories for a set of ROMs. With no name to go by, both hold
/// everything. Else unnamed data follows that of ADPCM-A, and ADPCM-B without
/// data of its own hears that of ADPCM-A.
pub open spec fn memories(roms: Seq<(String, Vec<u8>)>) -> (Seq<u8>, Seq<u8>) {
    let n = roms.len() as int;
    let shared = data_of(roms, VRomKind::Shared, n);
    if labelled(roms, n) {
        let a = data_of(roms, VRomKind::AdpcmA, n) + shared;
        let b = data_of(roms, VRomKind::AdpcmB, n);
        (a, if b.len() == 0 {
            a
        } else {
            b
        })
    } else {
        (shared, shared)
    }
}

fn copied(v: &Vec<u8>) -> (r: Vec<u8>)
    ensures
        r@ == v@,
{
    let mut r: Vec<u8> = Vec::new();
    r.extend_from_slice(v.as_slice());
    assert(r@ =~= v@);
    r
}

/// Sort ROMs into the two memories.
pub fn split_v_roms(roms: &[(String, Vec<u8>)]) -> (r: (Vec<u8>, Vec<u8>))
    ensures
        (r.0@, r.1@) == memories(roms@),
{
    let mut a: Vec<u8> = Vec::new();
    let mut b: Vec<u8> = Vec::new();
    let mut shared: Vec<u8> = Vec::new();
    let mut named: bool = false;
    let total: usize = roms.len();
    let mut i: usize = 0;
    while i < total
        invariant
            i <= total,
            total == roms@.len(),
            a@ == data_of(roms@, VRomKind::AdpcmA, i as int),
            b@ == data_of(roms@, VRomKind::AdpcmB, i as int),
            shared@ == data_of(roms@, VRomKind::Shared, i as int),
            named == labelled(roms@, i as int),
        decreases total - i,
    {
        let rom: &(String, Vec<u8>) = &roms[i];
        match classify_v_rom(rom.0.as_str()) {
            VRomKind::AdpcmA => {
                a.extend_from_slice(rom.1.as_slice());
                named = true;
                assert(kind_of(roms@[i as int].0@) != VRomKind::Shared);
            },
            VRomKind::AdpcmB => {
                b.extend_from_slice(rom.1.as_slice());
                named = true;
                assert(kind_of(roms@[i as int].0@) != VRomKind::Shared);
            },
            VRomKind::Shared => {
                shared.extend_from_slice(rom.1.as_slice());
                assert(labelled(roms@, i as int + 1) == labelled(roms@, i as int)) by {
                    if labelled(roms@, i as int) {
                        let k = choose|k: int|
                            0 <= k < i && kind_of((#[trigger] roms@[k]).0@) != VRomKind::Shared;
                        assert(kind_of(roms@[k].0@) != VRomKind::Shared);
                    }
                }
            },
        }
        assert(a@ =~= data_of(roms@, VRomKind::AdpcmA, i as int + 1));
        assert(b@ =~= data_of(roms@, VRomKind::AdpcmB, i as int + 1));
        assert(shared@ =~= data_of(roms@, VRomKind::Shared, i as int + 1));
        i = i + 1;
    }
    if named {
        a.extend_from_slice(shared.as_slice());
        assert(a@ =~= data_of(roms@, VRomKind::AdpcmA, total as int) + shared@);
        if b.len() == 0 {
            b = copied(&a);
        }
        (a, b)
    } else {
        let c: Vec<u8> = copied(&shared);
        (shared, c)
    }
}

/// Upper and lower case name the same memory.
pub proof fn case_does_not_matter(s: Seq<char>, t: Seq<char>)
    requires
        s.len() == t.len(),
        forall|i: int| 0 <= i < s.len() ==> lower(#[trigger] s[i]) == lower(t[i]),
    ensures
        kind_of(s) == kind_of(t),
{
    let n = s.len() as int;
    if n >= 4 {
        assert(lower(s[n - 4]) == lower(t[n - 4]));
    }
    if n >= 3 {
        assert(lower(s[n - 3]) == lower(t[n - 3]));
        assert(lower(s[n - 2]) == lower(t[n - 2]));
        assert(lower(s[n - 1]) == lower(t[n - 1]));
    }
}

/// Without data of its own, ADPCM-B hears that of ADPCM-A.
pub proof fn second_memory_falls_back(roms: Seq<(String, Vec<u8>)>)
    requires
        data_of(roms, VRomKind::AdpcmB, roms.len() as int).len() == 0,
    ensures
        memories(roms).1 == memories(roms).0,
{
}

}
