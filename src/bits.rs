use vstd::prelude::*;

verus! {

/// Whether bit `bit` of `n` is set.
pub open spec fn bit_of(n: u8, bit: u8) -> bool {
    n & (1u8 << bit) != 0
}

/// Tests bit `bit` (0..=7) of `n`.
pub fn get_bit(n: u8, bit: u8) -> (r: bool)
    requires
        bit < 8,
    ensures
        r == bit_of(n, bit),
{
    n & (1u8 << bit) != 0
}

/// `n` with bit `bit` set to `v`, every other bit kept.
pub open spec fn with_bit(n: u8, bit: u8, v: bool) -> u8 {
    if v {
        n | (1u8 << bit)
    } else {
        n & !(1u8 << bit)
    }
}

/// Sets bit `bit` (0..=7) of `*n` to `v`.
pub fn set_bit(n: &mut u8, bit: u8, v: bool)
    requires
        bit < 8,
    ensures
        *final(n) == with_bit(*old(n), bit, v),
{
    if v {
        *n = *n | (1u8 << bit);
    } else {
        *n = *n & !(1u8 << bit);
    }
}

/// The byte at `i` of `s`, or 0xFF (an undriven bus) where `s` holds no byte there.
pub open spec fn byte_or_ff(s: Seq<u8>, i: int) -> u8 {
    if 0 <= i < s.len() {
        s[i]
    } else {
        0xFF
    }
}

/// Reads byte `i` of `s`, or 0xFF past its end.
pub fn read_or_ff(s: &Vec<u8>, i: usize) -> (r: u8)
    ensures
        r == byte_or_ff(s@, i as int),
{
    if i < s.len() {
        s[i]
    } else {
        0xFF
    }
}

/// A vector of `n` zero bytes.
pub fn zeroed(n: usize) -> (v: Vec<u8>)
    ensures
        v@ == Seq::new(n as nat, |i: int| 0u8),
{
    let mut v: Vec<u8> = Vec::with_capacity(n);
    let mut i: usize = 0;
    while i < n
        invariant
            i <= n,
            v@ == Seq::new(i as nat, |j: int| 0u8),
        decreases n - i,
    {
        v.push(0u8);
        i = i + 1;
        assert(v@ =~= Seq::new(i as nat, |j: int| 0u8));
    }
    v
}


/// Writing a bit and reading it back gives the value written; the other bits stay.
pub proof fn lemma_with_bit(n: u8, bit: u8, v: bool)
    requires
        bit < 8,
    ensures
        bit_of(with_bit(n, bit, v), bit) == v,
        forall|k: u8| k < 8 && k != bit ==> bit_of(with_bit(n, bit, v), k) == bit_of(n, k),
{
    assert(bit_of(with_bit(n, bit, v), bit) == v && forall|k: u8|
        k < 8 && k != bit ==> #[trigger] bit_of(with_bit(n, bit, v), k) == bit_of(n, k)) by (bit_vector)
        requires
            bit < 8,
    ;
}

/// Setting a bit twice is setting it once.
pub proof fn lemma_with_bit_idempotent(n: u8, bit: u8)
    requires
        bit < 8,
    ensures
        with_bit(with_bit(n, bit, true), bit, true) == with_bit(n, bit, true),
{
    assert(with_bit(with_bit(n, bit, true), bit, true) == with_bit(n, bit, true)) by (bit_vector)
        requires
            bit < 8,
    ;
}

/// The 2-bit colour index of pixel `bp` (7 = leftmost) of a tile row with bit planes
/// `lo` and `hi`.
pub open spec fn pixel_index(lo: u8, hi: u8, bp: u8) -> u8 {
    ((lo >> bp) & 1) | (((hi >> bp) & 1) << 1)
}

pub fn tile_pixel(lo: u8, hi: u8, bp: u8) -> (r: u8)
    requires
        bp < 8,
    ensures
        r == pixel_index(lo, hi, bp),
        r < 4,
{
    let r = ((lo >> bp) & 1) | (((hi >> bp) & 1) << 1);
    assert(((lo >> bp) & 1) | (((hi >> bp) & 1) << 1) < 4) by (bit_vector);
    r
}

} // verus!
