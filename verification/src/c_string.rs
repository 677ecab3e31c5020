//! Which strings can cross into C: those without a NUL character, which would end them early.

use vstd::prelude::*;

verus! {

broadcast use vstd::string::group_string_axioms;

/// Whether `s` can be handed to C as a NUL terminated string, that is, holds no NUL character.
pub open spec fn is_c_string(s: Seq<char>) -> bool {
    !s.contains('\0')
}

/// Whether `s` holds no NUL character, so that C reads all of it.
pub fn fits_c_string(s: &str) -> (res: bool)
    ensures
        res == is_c_string(s@),
{
    let mut ok = true;
    for c in it: s.chars()
        invariant
            it.seq() == s@,
            ok == !it.seq().take(it.index() as int).contains('\0'),
    {
        proof {
            let prev = s@.take(it.index() as int);
            assert(s@.take(it.index() + 1) =~= prev.push(c));
            if c == '\0' {
                assert(prev.push(c)[prev.len() as int] == c);
            } else if prev.push(c).contains('\0') {
                let j = choose|j: int| 0 <= j < prev.push(c).len() && prev.push(c)[j] == '\0';
                assert(prev[j] == '\0');
            }
            if prev.contains('\0') {
                let j = choose|j: int| 0 <= j < prev.len() && prev[j] == '\0';
                assert(prev.push(c)[j] == '\0');
            }
        }
        if c == '\0' {
            ok = false;
        }
    }
    proof {
        assert(s@.take(s@.len() as int) =~= s@);
    }
    ok
}

} // verus!
