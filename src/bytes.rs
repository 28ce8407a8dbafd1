use vstd::prelude::*;
use vstd::utf8::encode_utf8;

verus! {

/// The `k` least significant bytes of `n`, least significant first.
pub open spec fn le_bytes(n: nat, k: nat) -> Seq<u8>
    decreases k,
{
    if k == 0 {
        seq![]
    } else {
        seq![(n % 256) as u8] + le_bytes(n / 256, (k - 1) as nat)
    }
}

/// A length-prefixed field of fixed capacity: the byte count of `b` as four
/// little-endian bytes, then `b`, then zeros up to `cap` bytes.
pub open spec fn padded_field(b: Seq<u8>, cap: nat) -> Seq<u8> {
    le_bytes(b.len(), 4) + b + Seq::new((cap - b.len()) as nat, |i: int| 0u8)
}

/// A UTF-8 encoding takes at most four bytes per character.
pub proof fn lemma_utf8_len_bound(s: Seq<char>)
    ensures
        encode_utf8(s).len() <= 4 * s.len(),
    decreases s.len(),
{
    if s.len() > 0 {
        lemma_utf8_len_bound(s.drop_first());
    }
}

/// `k` bytes are written for any value.
pub proof fn lemma_le_bytes_len(n: nat, k: nat)
    ensures
        le_bytes(n, k).len() == k,
    decreases k,
{
    if k > 0 {
        lemma_le_bytes_len(n / 256, (k - 1) as nat);
    }
}

/// Appends the `k` least significant bytes of `v`, least significant first.
pub fn push_le(out: &mut Vec<u8>, v: u64, k: usize)
    requires
        k <= 8,
    ensures
        final(out)@ == old(out)@ + le_bytes(v as nat, k as nat),
{
    let ghost start = out@;
    let mut rest: u64 = v;
    let mut i: usize = 0;
    while i < k
        invariant
            i <= k,
            out@ + le_bytes(rest as nat, (k - i) as nat) == start + le_bytes(v as nat, k as nat),
        decreases k - i,
    {
        let b: u8 = (rest % 256) as u8;
        proof {
            let tail = le_bytes(rest as nat / 256, (k - i - 1) as nat);
            assert(le_bytes(rest as nat, (k - i) as nat) == seq![b] + tail);
            assert(out@ + le_bytes(rest as nat, (k - i) as nat) == out@.push(b) + tail);
        }
        out.push(b);
        rest = rest / 256;
        i = i + 1;
    }
    assert(le_bytes(rest as nat, 0) == Seq::<u8>::empty());
    assert(out@ == out@ + Seq::<u8>::empty());
}

/// Appends the bytes of `src`.
pub fn push_all(out: &mut Vec<u8>, src: &[u8])
    ensures
        final(out)@ == old(out)@ + src@,
{
    let ghost start = out@;
    let mut i: usize = 0;
    while i < src.len()
        invariant
            i <= src@.len(),
            out@ == start + src@.subrange(0, i as int),
        decreases src@.len() - i,
    {
        out.push(src[i]);
        assert(src@.subrange(0, i + 1) == src@.subrange(0, i as int).push(src@[i as int]));
        i = i + 1;
    }
    assert(src@.subrange(0, src@.len() as int) == src@);
}

/// Appends `n` zero bytes.
pub fn push_zeros(out: &mut Vec<u8>, n: usize)
    ensures
        final(out)@ == old(out)@ + Seq::new(n as nat, |i: int| 0u8),
{
    let ghost start = out@;
    let mut i: usize = 0;
    while i < n
        invariant
            i <= n,
            out@ == start + Seq::new(i as nat, |j: int| 0u8),
        decreases n - i,
    {
        out.push(0u8);
        assert(Seq::new((i + 1) as nat, |j: int| 0u8) == Seq::new(i as nat, |j: int| 0u8).push(0u8));
        i = i + 1;
    }
}

/// Appends `b` as a length-prefixed field of capacity `cap`.
pub fn push_padded(out: &mut Vec<u8>, b: &[u8], cap: usize)
    requires
        b@.len() <= cap,
        cap <= u32::MAX,
    ensures
        final(out)@ == old(out)@ + padded_field(b@, cap as nat),
{
    let ghost start = out@;
    push_le(out, b.len() as u64, 4);
    push_all(out, b);
    push_zeros(out, cap - b.len());
    assert(out@ == start + padded_field(b@, cap as nat));
}

} // verus!
