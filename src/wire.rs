//! Byte-level building blocks shared by both protocols: fixed-width
//! integers in either byte order, NUL-terminated and length-prefixed text.
use vstd::prelude::*;
use vstd::utf8::encode_utf8;

verus! {

/// `256` raised to the `k`: one more than the largest value `k` bytes hold.
pub open spec fn byte_range(k: nat) -> nat
    decreases k,
{
    if k == 0 {
        1
    } else {
        256 * byte_range((k - 1) as nat)
    }
}

/// The `k` low-order bytes of `n`, least significant first.
pub open spec fn le_bytes(n: nat, k: nat) -> Seq<u8>
    decreases k,
{
    if k == 0 {
        Seq::empty()
    } else {
        seq![(n % 256) as u8] + le_bytes(n / 256, (k - 1) as nat)
    }
}

/// The `k` low-order bytes of `n`, most significant first.
pub open spec fn be_bytes(n: nat, k: nat) -> Seq<u8>
    decreases k,
{
    if k == 0 {
        Seq::empty()
    } else {
        be_bytes(n / 256, (k - 1) as nat) + seq![(n % 256) as u8]
    }
}

/// The unsigned integer that `b` holds, least significant byte first.
pub open spec fn le_value(b: Seq<u8>) -> nat
    decreases b.len(),
{
    if b.len() == 0 {
        0
    } else {
        b[0] as nat + 256 * le_value(b.drop_first())
    }
}

/// The unsigned integer that `b` holds, most significant byte first.
pub open spec fn be_value(b: Seq<u8>) -> nat
    decreases b.len(),
{
    if b.len() == 0 {
        0
    } else {
        256 * be_value(b.drop_last()) + b.last() as nat
    }
}

/// The UTF-8 bytes of `s` followed by a NUL byte.
pub open spec fn cstr(s: Seq<char>) -> Seq<u8> {
    encode_utf8(s).push(0)
}

/// The UTF-8 bytes of `s` behind a single length byte (the short form of a
/// length-encoded string, for text under 251 bytes).
pub open spec fn lenenc(s: Seq<char>) -> Seq<u8> {
    seq![encode_utf8(s).len() as u8] + encode_utf8(s)
}

pub proof fn lemma_le_bytes_len(n: nat, k: nat)
    ensures
        le_bytes(n, k).len() == k,
    decreases k,
{
    if k > 0 {
        lemma_le_bytes_len(n / 256, (k - 1) as nat);
    }
}

pub proof fn lemma_be_bytes_len(n: nat, k: nat)
    ensures
        be_bytes(n, k).len() == k,
    decreases k,
{
    if k > 0 {
        lemma_be_bytes_len(n / 256, (k - 1) as nat);
    }
}

/// Reading back the `k` little-endian bytes of a value under `256^k` gives the value.
pub proof fn lemma_le_round_trip(n: nat, k: nat)
    requires
        n < byte_range(k),
    ensures
        le_value(le_bytes(n, k)) == n,
    decreases k,
{
    if k > 0 {
        let r = byte_range((k - 1) as nat);
        assert(n / 256 < r) by (nonlinear_arith)
            requires
                n < 256 * r,
        ;
        lemma_le_round_trip(n / 256, (k - 1) as nat);
        assert(le_bytes(n, k).drop_first() =~= le_bytes(n / 256, (k - 1) as nat));
    }
}

/// Reading back the `k` big-endian bytes of a value under `256^k` gives the value.
pub proof fn lemma_be_round_trip(n: nat, k: nat)
    requires
        n < byte_range(k),
    ensures
        be_value(be_bytes(n, k)) == n,
    decreases k,
{
    if k > 0 {
        let r = byte_range((k - 1) as nat);
        assert(n / 256 < r) by (nonlinear_arith)
            requires
                n < 256 * r,
        ;
        lemma_be_round_trip(n / 256, (k - 1) as nat);
        assert(be_bytes(n, k).drop_last() =~= be_bytes(n / 256, (k - 1) as nat));
    }
}

/// A character takes at most four bytes in UTF-8.
pub proof fn lemma_utf8_len_bound(s: Seq<char>)
    ensures
        encode_utf8(s).len() <= 4 * s.len(),
    decreases s.len(),
{
    if s.len() > 0 {
        lemma_utf8_len_bound(s.drop_first());
    }
}

/// Appends the two bytes of `n`, least significant first.
pub fn push_u16_le(out: &mut Vec<u8>, n: u16)
    ensures
        final(out)@ == old(out)@ + le_bytes(n as nat, 2),
{
    proof {
        reveal_with_fuel(le_bytes, 3);
    }
    out.push((n % 256) as u8);
    out.push((n / 256 % 256) as u8);
    assert(final(out)@ =~= old(out)@ + le_bytes(n as nat, 2));
}

/// Appends the three low-order bytes of `n`, least significant first.
pub fn push_u24_le(out: &mut Vec<u8>, n: u32)
    ensures
        final(out)@ == old(out)@ + le_bytes(n as nat, 3),
{
    proof {
        reveal_with_fuel(le_bytes, 4);
    }
    let n1 = n / 256;
    let n2 = n1 / 256;
    out.push((n % 256) as u8);
    out.push((n1 % 256) as u8);
    out.push((n2 % 256) as u8);
    assert(final(out)@ =~= old(out)@ + le_bytes(n as nat, 3));
}

/// Appends the four bytes of `n`, least significant first.
pub fn push_u32_le(out: &mut Vec<u8>, n: u32)
    ensures
        final(out)@ == old(out)@ + le_bytes(n as nat, 4),
{
    proof {
        reveal_with_fuel(le_bytes, 5);
    }
    let n1 = n / 256;
    let n2 = n1 / 256;
    let n3 = n2 / 256;
    out.push((n % 256) as u8);
    out.push((n1 % 256) as u8);
    out.push((n2 % 256) as u8);
    out.push((n3 % 256) as u8);
    assert(final(out)@ =~= old(out)@ + le_bytes(n as nat, 4));
}

/// Appends the eight bytes of `n`, least significant first.
pub fn push_u64_le(out: &mut Vec<u8>, n: u64)
    ensures
        final(out)@ == old(out)@ + le_bytes(n as nat, 8),
{
    proof {
        reveal_with_fuel(le_bytes, 9);
    }
    let n1 = n / 256;
    let n2 = n1 / 256;
    let n3 = n2 / 256;
    let n4 = n3 / 256;
    let n5 = n4 / 256;
    let n6 = n5 / 256;
    let n7 = n6 / 256;
    out.push((n % 256) as u8);
    out.push((n1 % 256) as u8);
    out.push((n2 % 256) as u8);
    out.push((n3 % 256) as u8);
    out.push((n4 % 256) as u8);
    out.push((n5 % 256) as u8);
    out.push((n6 % 256) as u8);
    out.push((n7 % 256) as u8);
    assert(final(out)@ =~= old(out)@ + le_bytes(n as nat, 8));
}

/// Appends the two bytes of `n`, most significant first.
pub fn push_u16_be(out: &mut Vec<u8>, n: u16)
    ensures
        final(out)@ == old(out)@ + be_bytes(n as nat, 2),
{
    proof {
        reveal_with_fuel(be_bytes, 3);
    }
    out.push((n / 256 % 256) as u8);
    out.push((n % 256) as u8);
    assert(final(out)@ =~= old(out)@ + be_bytes(n as nat, 2));
}

/// Appends the four bytes of `n`, most significant first.
pub fn push_u32_be(out: &mut Vec<u8>, n: u32)
    ensures
        final(out)@ == old(out)@ + be_bytes(n as nat, 4),
{
    proof {
        reveal_with_fuel(be_bytes, 5);
    }
    let n1 = n / 256;
    let n2 = n1 / 256;
    let n3 = n2 / 256;
    out.push((n3 % 256) as u8);
    out.push((n2 % 256) as u8);
    out.push((n1 % 256) as u8);
    out.push((n % 256) as u8);
    assert(final(out)@ =~= old(out)@ + be_bytes(n as nat, 4));
}

/// Appends the bytes of `s` and a NUL byte.
pub fn push_cstr(out: &mut Vec<u8>, s: &str)
    ensures
        final(out)@ == old(out)@ + cstr(s@),
{
    out.extend_from_slice(s.as_bytes());
    out.push(0);
    assert(final(out)@ =~= old(out)@ + cstr(s@));
}

/// Appends the bytes of `s` behind one length byte.
pub fn push_lenenc(out: &mut Vec<u8>, s: &str)
    ensures
        final(out)@ == old(out)@ + lenenc(s@),
{
    let b = s.as_bytes();
    out.push(b.len() as u8);
    out.extend_from_slice(b);
    assert(final(out)@ =~= old(out)@ + lenenc(s@));
}

/// Appends the UTF-8 bytes of `s`.
pub fn push_str(out: &mut Vec<u8>, s: &str)
    ensures
        final(out)@ == old(out)@ + encode_utf8(s@),
{
    out.extend_from_slice(s.as_bytes());
    assert(final(out)@ =~= old(out)@ + encode_utf8(s@));
}

/// Reads three bytes at `at` as a little-endian integer.
pub fn read_u24_le(b: &[u8], at: usize) -> (r: u32)
    requires
        at + 3 <= b@.len(),
    ensures
        r == le_value(b@.subrange(at as int, at + 3)),
{
    let s = Ghost(b@.subrange(at as int, at + 3));
    proof {
        reveal_with_fuel(le_value, 4);
        assert(s@.drop_first() =~= seq![b@[at + 1], b@[at + 2]]);
        assert(s@.drop_first().drop_first() =~= seq![b@[at + 2]]);
        assert(s@.drop_first().drop_first().drop_first() =~= Seq::<u8>::empty());
    }
    b[at] as u32 + 256 * (b[at + 1] as u32 + 256 * b[at + 2] as u32)
}

/// Reads four bytes at `at` as a big-endian integer.
pub fn read_u32_be(b: &[u8], at: usize) -> (r: u32)
    requires
        at + 4 <= b@.len(),
    ensures
        r == be_value(b@.subrange(at as int, at + 4)),
{
    let s = Ghost(b@.subrange(at as int, at + 4));
    proof {
        reveal_with_fuel(be_value, 5);
        assert(s@.drop_last() =~= seq![b@[at as int], b@[at + 1], b@[at + 2]]);
        assert(s@.drop_last().drop_last() =~= seq![b@[at as int], b@[at + 1]]);
        assert(s@.drop_last().drop_last().drop_last() =~= seq![b@[at as int]]);
        assert(s@.drop_last().drop_last().drop_last().drop_last() =~= Seq::<u8>::empty());
    }
    ((b[at] as u32 * 256 + b[at + 1] as u32) * 256 + b[at + 2] as u32) * 256 + b[at + 3] as u32
}

/// Reads four bytes at `at` as a little-endian integer.
pub fn read_u32_le(b: &[u8], at: usize) -> (r: u32)
    requires
        at + 4 <= b@.len(),
    ensures
        r == le_value(b@.subrange(at as int, at + 4)),
{
    let s = Ghost(b@.subrange(at as int, at + 4));
    proof {
        reveal_with_fuel(le_value, 5);
        assert(s@.drop_first() =~= seq![b@[at + 1], b@[at + 2], b@[at + 3]]);
        assert(s@.drop_first().drop_first() =~= seq![b@[at + 2], b@[at + 3]]);
        assert(s@.drop_first().drop_first().drop_first() =~= seq![b@[at + 3]]);
        assert(s@.drop_first().drop_first().drop_first().drop_first() =~= Seq::<u8>::empty());
    }
    b[at] as u32 + 256 * (b[at + 1] as u32 + 256 * (b[at + 2] as u32 + 256 * b[at + 3] as u32))
}

/// Whether `b` holds exactly the UTF-8 bytes of `s`.
pub fn bytes_are(b: &[u8], s: &str) -> (r: bool)
    ensures
        r == (b@ == encode_utf8(s@)),
{
    let t = s.as_bytes();
    if b.len() != t.len() {
        return false;
    }
    let mut i: usize = 0;
    while i < b.len()
        invariant
            i <= b@.len(),
            b@.len() == t@.len(),
            t@ == encode_utf8(s@),
            forall|j: int| 0 <= j < i ==> b@[j] == t@[j],
        decreases b@.len() - i,
    {
        if b[i] != t[i] {
            return false;
        }
        i = i + 1;
    }
    assert(b@ =~= t@);
    true
}

} // verus!
