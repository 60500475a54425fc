//! Reading and writing the fields of fixed-layout records: byte arrays,
//! flags and little-endian integers at fixed offsets of a byte buffer.

use vstd::array::spec_array_fill_for_copy_type;
use vstd::array::spec_array_update;
use vstd::bytes::spec_u64_from_le_bytes;
use vstd::bytes::spec_u64_to_le_bytes;
use vstd::prelude::*;

verus! {

/// The array whose first `k` entries are those of `s`, and the rest zero.
pub open spec fn array_prefix<const N: usize>(s: Seq<u8>, k: nat) -> [u8; N]
    decreases k,
{
    if k == 0 {
        spec_array_fill_for_copy_type::<u8, N>(0u8)
    } else {
        spec_array_update(array_prefix::<N>(s, (k - 1) as nat), k - 1, s[k - 1])
    }
}

/// The array of length `N` that holds the bytes of `s`, for `s` of that length.
pub open spec fn array_of<const N: usize>(s: Seq<u8>) -> [u8; N] {
    array_prefix::<N>(s, N as nat)
}

/// The first `k` entries of `array_prefix(s, k)` are those of `s`.
pub proof fn lemma_array_prefix<const N: usize>(s: Seq<u8>, k: nat)
    requires
        k <= N,
    ensures
        forall|i: int| 0 <= i < k ==> #[trigger] array_prefix::<N>(s, k)@[i] == s[i],
    decreases k,
{
    if k > 0 {
        lemma_array_prefix::<N>(s, (k - 1) as nat);
        let before = array_prefix::<N>(s, (k - 1) as nat);
        vstd::array::axiom_spec_array_update(before, k - 1, s[k - 1]);
        assert(array_prefix::<N>(s, k)@ == before@.update(k - 1, s[k - 1]));
    }
}

/// `array_of` inverts the view of an array: it holds exactly the bytes given.
pub proof fn lemma_array_of<const N: usize>(s: Seq<u8>)
    requires
        s.len() == N,
    ensures
        array_of::<N>(s)@ == s,
{
    lemma_array_prefix::<N>(s, N as nat);
    assert(array_of::<N>(s)@ =~= s);
}

/// An array is found again from its own bytes.
pub proof fn lemma_array_of_view<const N: usize>(a: [u8; N])
    ensures
        array_of::<N>(a@) == a,
{
    lemma_array_of::<N>(a@);
    assert(array_of::<N>(a@) =~= a);
}

/// The byte that stores a flag.
pub open spec fn bool_byte(b: bool) -> u8 {
    if b {
        1
    } else {
        0
    }
}

/// The flag that a stored byte stands for: any nonzero byte is `true`.
pub open spec fn byte_bool(x: u8) -> bool {
    x != 0
}

/// `s` padded with zero bytes to the length `n`, for `s` no longer than `n`.
pub open spec fn zero_padded(s: Seq<u8>, n: nat) -> Seq<u8> {
    Seq::new(
        n,
        |i: int|
            if i < s.len() {
                s[i]
            } else {
                0u8
            },
    )
}

/// Copies the `N` bytes of `src` that start at `at` into an array.
pub fn read_array<const N: usize>(src: &[u8], at: usize) -> (r: [u8; N])
    requires
        at + N <= src.len(),
    ensures
        r == array_of::<N>(src@.subrange(at as int, at + N)),
        r@ == src@.subrange(at as int, at + N),
{
    let mut r: [u8; N] = [0u8; N];
    let mut i: usize = 0;
    while i < N
        invariant
            i <= N,
            at + N <= src.len(),
            forall|j: int| 0 <= j < i ==> r@[j] == src@[at + j],
        decreases N - i,
    {
        r[i] = src[at + i];
        i += 1;
    }
    proof {
        let s = src@.subrange(at as int, at + N);
        lemma_array_of::<N>(s);
        assert(r@ =~= s);
        assert(r =~= array_of::<N>(s));
    }
    r
}

/// Copies `src` into an array of `N` bytes, filling the rest with zeros.
pub fn padded_array<const N: usize>(src: &[u8]) -> (r: [u8; N])
    requires
        src.len() <= N,
    ensures
        r@ == zero_padded(src@, N as nat),
        r == array_of::<N>(zero_padded(src@, N as nat)),
{
    let mut r: [u8; N] = [0u8; N];
    let mut i: usize = 0;
    while i < src.len()
        invariant
            i <= src.len() <= N,
            forall|j: int| 0 <= j < i ==> r@[j] == src@[j],
            forall|j: int| i <= j < N ==> r@[j] == 0u8,
        decreases src.len() - i,
    {
        r[i] = src[i];
        i += 1;
    }
    proof {
        let s = zero_padded(src@, N as nat);
        lemma_array_of::<N>(s);
        assert(r@ =~= s);
        assert(r =~= array_of::<N>(s));
    }
    r
}

/// Reads the flag stored at `at`.
pub fn read_bool(src: &[u8], at: usize) -> (r: bool)
    requires
        at < src.len(),
    ensures
        r == byte_bool(src@[at as int]),
{
    src[at] != 0
}

/// Reads the little-endian `u64` stored in the eight bytes that start at `at`.
pub fn read_u64(src: &[u8], at: usize) -> (r: u64)
    requires
        at + 8 <= src.len(),
    ensures
        r == spec_u64_from_le_bytes(src@.subrange(at as int, at + 8)),
{
    let window = vstd::slice::slice_subrange(src, at, at + 8);
    vstd::bytes::u64_from_le_bytes(window)
}

/// Appends the bytes of `src` to `out`.
pub fn append_bytes(out: &mut Vec<u8>, src: &[u8])
    ensures
        final(out)@ == old(out)@ + src@,
{
    let ghost before = out@;
    let mut i: usize = 0;
    while i < src.len()
        invariant
            i <= src.len(),
            out@ == before + src@.subrange(0, i as int),
        decreases src.len() - i,
    {
        out.push(src[i]);
        i += 1;
        assert(out@ =~= before + src@.subrange(0, i as int));
    }
    assert(src@.subrange(0, src.len() as int) =~= src@);
}

/// Appends the byte that stores `flag` to `out`.
pub fn append_bool(out: &mut Vec<u8>, flag: bool)
    ensures
        final(out)@ == old(out)@ + seq![bool_byte(flag)],
{
    let ghost before = out@;
    if flag {
        out.push(1);
    } else {
        out.push(0);
    }
    assert(out@ =~= before + seq![bool_byte(flag)]);
}

/// Appends one byte to `out`.
pub fn append_u8(out: &mut Vec<u8>, value: u8)
    ensures
        final(out)@ == old(out)@ + seq![value],
{
    let ghost before = out@;
    out.push(value);
    assert(out@ =~= before + seq![value]);
}

/// Appends the eight little-endian bytes of `value` to `out`.
pub fn append_u64(out: &mut Vec<u8>, value: u64)
    ensures
        final(out)@ == old(out)@ + spec_u64_to_le_bytes(value),
{
    let bytes = vstd::bytes::u64_to_le_bytes(value);
    append_bytes(out, bytes.as_slice());
}

} // verus!
