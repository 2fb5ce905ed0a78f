//! Small shared executable helpers.

use vstd::prelude::*;

verus! {

/// A zero-filled byte buffer of the requested length.
pub fn zero_vec(n: usize) -> (v: Vec<u8>)
    ensures
        v@.len() == n,
        forall|i: int| 0 <= i < n ==> v@[i] == 0u8,
{
    let mut v: Vec<u8> = Vec::new();
    let mut k: usize = 0;
    while k < n
        invariant
            k <= n,
            v@.len() == k,
            forall|i: int| 0 <= i < k ==> v@[i] == 0u8,
        decreases n - k,
    {
        v.push(0);
        k = k + 1;
    }
    v
}

/// A copy of `data[start .. start + len]` as a fresh buffer.
pub fn copy_range(data: &Vec<u8>, start: usize, len: usize) -> (v: Vec<u8>)
    requires
        start + len <= data@.len(),
    ensures
        v@ == data@.subrange(start as int, start + len),
{
    let dlen: usize = data.len();
    let mut v: Vec<u8> = Vec::new();
    let mut k: usize = 0;
    while k < len
        invariant
            k <= len,
            start + len <= dlen,
            dlen == data@.len(),
            v@ =~= data@.subrange(start as int, start + k),
        decreases len - k,
    {
        v.push(data[start + k]);
        k = k + 1;
    }
    assert(v@ =~= data@.subrange(start as int, start + len));
    v
}

/// The 16-bit word assembled from a low and a high byte.
pub open spec fn word_s(lo: u8, hi: u8) -> u16 {
    (hi as u16 * 256 + lo as u16) as u16
}

/// Assemble a 16-bit word from its low and high bytes.
pub fn word(lo: u8, hi: u8) -> (r: u16)
    ensures
        r == word_s(lo, hi),
{
    (hi as u16) * 256 + (lo as u16)
}

} // verus!
