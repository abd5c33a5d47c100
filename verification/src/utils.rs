//! Fixed-width string storage.

use vstd::prelude::*;

use crate::error::HybridDexError;

verus! {

/// `s` followed by zero bytes up to width `n`. Meaningful for `n` at least
/// the length of `s`.
pub open spec fn zero_padded(s: Seq<u8>, n: int) -> Seq<u8> {
    s.add(Seq::new((n - s.len()) as nat, |i: int| 0u8))
}

/// Lays `name` out in a fixed-width field of `N` bytes, padded at the end
/// with zeros. A name longer than the field is rejected with
/// `InvalidInputNameLength` — exactly when `name` has more than `N` bytes.
pub fn fill_from_str<const N: usize>(name: &Vec<u8>) -> (r: Result<Vec<u8>, HybridDexError>)
    ensures
        match r {
            Ok(v) => {
                &&& name@.len() <= N
                &&& v@.len() == N
                &&& v@ == zero_padded(name@, N as int)
            },
            Err(e) => {
                &&& e == HybridDexError::InvalidInputNameLength
                &&& name@.len() > N
            },
        },
{
    let len: usize = name.len();
    if len > N {
        return Err(HybridDexError::InvalidInputNameLength);
    }
    let mut out: Vec<u8> = Vec::new();
    let mut i: usize = 0;
    while i < len
        invariant
            0 <= i <= len,
            len == name@.len(),
            out@ =~= name@.subrange(0, i as int),
        decreases len - i,
    {
        out.push(name[i]);
        proof {
            assert(name@.subrange(0, i as int).push(name@[i as int]) =~= name@.subrange(
                0,
                i + 1,
            ));
        }
        i = i + 1;
    }
    while i < N
        invariant
            len <= i <= N,
            len == name@.len(),
            out@.len() == i,
            out@.subrange(0, len as int) =~= name@,
            forall|j: int| len <= j < i ==> out@[j] == 0u8,
        decreases N - i,
    {
        let ghost before = out@;
        out.push(0u8);
        proof {
            assert(out@.subrange(0, len as int) =~= before.subrange(0, len as int));
        }
        i = i + 1;
    }
    proof {
        assert(out@ =~= zero_padded(name@, N as int));
    }
    Ok(out)
}

} // verus!
