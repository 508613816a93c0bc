//! Names compared without regard to case.
use vstd::prelude::*;

verus! {

/// The code of a character, capital letters A to Z as small ones.
pub open spec fn lower(c: char) -> int {
    if 'A' <= c && c <= 'Z' {
        c as int + 32
    } else {
        c as int
    }
}

/// Whether `name` reads `word` when its capital letters are made small.
pub open spec fn spells(name: Seq<char>, word: Seq<char>) -> bool {
    &&& name.len() == word.len()
    &&& forall|i: int| 0 <= i < word.len() ==> lower(#[trigger] name[i]) == word[i] as int
}

pub fn reads(name: &str, word: &str) -> (b: bool)
    ensures
        b == spells(name@, word@),
{
    let n: usize = name.unicode_len();
    if n != word.unicode_len() {
        return false;
    }
    let mut i: usize = 0;
    while i < n
        invariant
            i <= n,
            n == name@.len(),
            n == word@.len(),
            forall|k: int| 0 <= k < i ==> lower(#[trigger] name@[k]) == word@[k] as int,
        decreases n - i,
    {
        let c: char = name.get_char(i);
        let code: u32 = if 'A' <= c && c <= 'Z' {
            c as u32 + 32
        } else {
            c as u32
        };
        if code != word.get_char(i) as u32 {
            assert(lower(name@[i as int]) != word@[i as int] as int);
            return false;
        }
        i = i + 1;
    }
    true
}

}
