use vstd::prelude::*;

verus! {

/// The 64 bytes of `v` as an array.
pub fn to_array(v: &Vec<u8>) -> (res: [u8; 64])
    requires
        v@.len() == 64,
    ensures
        res@ == v@,
{
    let mut res = [0u8; 64];
    let mut i: usize = 0;
    while i < 64
        invariant
            i <= 64,
            v@.len() == 64,
            forall|j: int| 0 <= j < i ==> res@[j] == v@[j],
        decreases 64 - i,
    {
        res[i] = v[i];
        i = i + 1;
    }
    assert(res@ =~= v@);
    res
}

} // verus!
