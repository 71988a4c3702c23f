//! Byte-string helpers: integers on the wire, fixed-size copies and
//! comparisons, each tied to a plain sequence model.

use vstd::prelude::*;

verus! {

/// The 16-bit value whose two octets are given, least significant first.
pub open spec fn le16(lo: u8, hi: u8) -> u16 {
    (lo + 256 * hi) as u16
}

/// The 16-bit value whose two octets are given, most significant first.
pub open spec fn be16(hi: u8, lo: u8) -> u16 {
    (lo + 256 * hi) as u16
}

/// The two octets of `x`, least significant first.
pub open spec fn le16_bytes(x: u16) -> Seq<u8> {
    seq![(x % 256) as u8, (x / 256) as u8]
}

/// The two octets of `x`, most significant first.
pub open spec fn be16_bytes(x: u16) -> Seq<u8> {
    seq![(x / 256) as u8, (x % 256) as u8]
}

/// The four octets of `x`, least significant first.
pub open spec fn le32_bytes(x: u32) -> Seq<u8> {
    seq![
        (x % 0x100) as u8,
        ((x / 0x100) % 0x100) as u8,
        ((x / 0x1_0000) % 0x100) as u8,
        (x / 0x100_0000) as u8,
    ]
}

/// The 32-bit value of four octets, least significant first.
pub open spec fn le32(a: u8, b: u8, c: u8, d: u8) -> u32 {
    (a + 0x100 * b + 0x1_0000 * c + 0x100_0000 * d) as u32
}

/// The four octets of `x`, most significant first.
pub open spec fn be32_bytes(x: u32) -> Seq<u8> {
    seq![
        (x / 0x100_0000) as u8,
        ((x / 0x1_0000) % 0x100) as u8,
        ((x / 0x100) % 0x100) as u8,
        (x % 0x100) as u8,
    ]
}

/// The eight octets of `x`, most significant first.
pub open spec fn be64_bytes(x: u64) -> Seq<u8> {
    seq![
        (x / 0x100_0000_0000_0000) as u8,
        ((x / 0x1_0000_0000_0000) % 0x100) as u8,
        ((x / 0x100_0000_0000) % 0x100) as u8,
        ((x / 0x1_0000_0000) % 0x100) as u8,
        ((x / 0x100_0000) % 0x100) as u8,
        ((x / 0x1_0000) % 0x100) as u8,
        ((x / 0x100) % 0x100) as u8,
        (x % 0x100) as u8,
    ]
}

/// The value of a byte string read as one big-endian number.
pub open spec fn be_nat(s: Seq<u8>) -> nat
    decreases s.len(),
{
    if s.len() == 0 {
        0
    } else {
        256 * be_nat(s.drop_last()) + s.last() as nat
    }
}

/// Lexicographic order on byte strings.
pub open spec fn lex_less(a: Seq<u8>, b: Seq<u8>) -> bool
    decreases a.len(),
{
    if b.len() == 0 {
        false
    } else if a.len() == 0 {
        true
    } else if a[0] != b[0] {
        a[0] < b[0]
    } else {
        lex_less(a.drop_first(), b.drop_first())
    }
}

/// `n` zero octets.
pub open spec fn zeros(n: nat) -> Seq<u8> {
    Seq::new(n, |i: int| 0u8)
}

/// Splitting and rejoining a 16-bit value in either byte order.
pub proof fn lemma_u16_bytes(x: u16)
    ensures
        le16(le16_bytes(x)[0], le16_bytes(x)[1]) == x,
        be16(be16_bytes(x)[0], be16_bytes(x)[1]) == x,
{
}

/// Splitting and rejoining a 64-bit value, most significant octet first.
pub proof fn lemma_be64_bytes(x: u64)
    ensures
        be_nat(be64_bytes(x)) == x as nat,
        be64_bytes(x).len() == 8,
{
    let s = be64_bytes(x);
    lemma_be_nat_prefix(s, 0);
    assert(be_nat(s.subrange(0, 0)) == 0);
    lemma_be_nat_prefix(s, 1);
    lemma_be_nat_prefix(s, 2);
    lemma_be_nat_prefix(s, 3);
    lemma_be_nat_prefix(s, 4);
    lemma_be_nat_prefix(s, 5);
    lemma_be_nat_prefix(s, 6);
    lemma_be_nat_prefix(s, 7);
    vstd::arithmetic::div_mod::lemma_div_denominator(x as int, 0x1_0000_0000_0000, 256);
    vstd::arithmetic::div_mod::lemma_div_denominator(x as int, 0x100_0000_0000, 256);
    vstd::arithmetic::div_mod::lemma_div_denominator(x as int, 0x1_0000_0000, 256);
    vstd::arithmetic::div_mod::lemma_div_denominator(x as int, 0x100_0000, 256);
    vstd::arithmetic::div_mod::lemma_div_denominator(x as int, 0x1_0000, 256);
    vstd::arithmetic::div_mod::lemma_div_denominator(x as int, 0x100, 256);
    assert(be_nat(s.subrange(0, 1)) == x / 0x100_0000_0000_0000);
    assert(be_nat(s.subrange(0, 2)) == x / 0x1_0000_0000_0000);
    assert(be_nat(s.subrange(0, 3)) == x / 0x100_0000_0000);
    assert(be_nat(s.subrange(0, 4)) == x / 0x1_0000_0000);
    assert(be_nat(s.subrange(0, 5)) == x / 0x100_0000);
    assert(be_nat(s.subrange(0, 6)) == x / 0x1_0000);
    assert(be_nat(s.subrange(0, 7)) == x / 0x100);
    assert(s.subrange(0, 8) =~= s);
}

/// One more octet of a byte string.
proof fn lemma_be_nat_prefix(s: Seq<u8>, k: int)
    requires
        0 <= k < s.len(),
    ensures
        be_nat(s.subrange(0, k + 1)) == 256 * be_nat(s.subrange(0, k)) + s[k],
{
    assert(s.subrange(0, k + 1).drop_last() =~= s.subrange(0, k));
}

/// Big-endian values of byte strings of one length are distinct.
pub proof fn lemma_be_nat_injective(a: Seq<u8>, b: Seq<u8>)
    requires
        a.len() == b.len(),
        be_nat(a) == be_nat(b),
    ensures
        a == b,
    decreases a.len(),
{
    if a.len() > 0 {
        lemma_be_nat_injective(a.drop_last(), b.drop_last());
        assert(a =~= a.drop_last().push(a.last()));
        assert(b =~= b.drop_last().push(b.last()));
    }
}

/// Of two different byte strings of one length exactly one is the lesser.
pub proof fn lemma_lex_less_total(a: Seq<u8>, b: Seq<u8>)
    requires
        a.len() == b.len(),
    ensures
        a == b ==> !lex_less(a, b) && !lex_less(b, a),
        a != b ==> (lex_less(a, b) <==> !lex_less(b, a)),
    decreases a.len(),
{
    if a.len() > 0 {
        lemma_lex_less_total(a.drop_first(), b.drop_first());
        reveal_with_fuel(lex_less, 2);
        assert(a =~= seq![a[0]] + a.drop_first());
        assert(b =~= seq![b[0]] + b.drop_first());
    } else {
        assert(a =~= b);
    }
}

/// Append the octets of a slice.
pub fn append(v: &mut Vec<u8>, s: &[u8])
    ensures
        final(v)@ == old(v)@ + s@,
{
    v.extend_from_slice(s);
    assert(v@ =~= old(v)@ + s@);
}

/// Append a 16-bit value, least significant octet first.
pub fn push_le16(v: &mut Vec<u8>, x: u16)
    ensures
        final(v)@ == old(v)@ + le16_bytes(x),
{
    v.push((x % 256) as u8);
    v.push((x / 256) as u8);
    assert(v@ =~= old(v)@ + le16_bytes(x));
}

/// Append a 16-bit value, most significant octet first.
pub fn push_be16(v: &mut Vec<u8>, x: u16)
    ensures
        final(v)@ == old(v)@ + be16_bytes(x),
{
    v.push((x / 256) as u8);
    v.push((x % 256) as u8);
    assert(v@ =~= old(v)@ + be16_bytes(x));
}

/// Append a 32-bit value, most significant octet first.
pub fn push_be32(v: &mut Vec<u8>, x: u32)
    ensures
        final(v)@ == old(v)@ + be32_bytes(x),
{
    v.push((x / 0x100_0000) as u8);
    v.push(((x / 0x1_0000) % 0x100) as u8);
    v.push(((x / 0x100) % 0x100) as u8);
    v.push((x % 0x100) as u8);
    assert(v@ =~= old(v)@ + be32_bytes(x));
}

/// The eight octets of a 64-bit value, most significant first.
pub fn be64_array(x: u64) -> (r: [u8; 8])
    ensures
        r@ == be64_bytes(x),
{
    let r: [u8; 8] = [
        (x / 0x100_0000_0000_0000) as u8,
        ((x / 0x1_0000_0000_0000) % 0x100) as u8,
        ((x / 0x100_0000_0000) % 0x100) as u8,
        ((x / 0x1_0000_0000) % 0x100) as u8,
        ((x / 0x100_0000) % 0x100) as u8,
        ((x / 0x1_0000) % 0x100) as u8,
        ((x / 0x100) % 0x100) as u8,
        (x % 0x100) as u8,
    ];
    assert(r@ =~= be64_bytes(x));
    r
}

/// Append a 64-bit value, most significant octet first.
pub fn push_be64(v: &mut Vec<u8>, x: u64)
    ensures
        final(v)@ == old(v)@ + be64_bytes(x),
{
    let b = be64_array(x);
    append(v, &b);
}

/// The 16-bit value at `at`, least significant octet first.
pub fn read_le16(s: &[u8], at: usize) -> (r: u16)
    requires
        at + 2 <= s@.len(),
    ensures
        r == le16(s@[at as int], s@[at + 1]),
{
    s[at] as u16 + 256 * (s[at + 1] as u16)
}

/// The 16-bit value at `at`, most significant octet first.
pub fn read_be16(s: &[u8], at: usize) -> (r: u16)
    requires
        at + 2 <= s@.len(),
    ensures
        r == be16(s@[at as int], s@[at + 1]),
{
    assert(at + 1 < s.len());
    s[at + 1] as u16 + 256 * (s[at] as u16)
}

/// The 32-bit value at `at`, least significant octet first.
pub fn read_le32(s: &[u8], at: usize) -> (r: u32)
    requires
        at + 4 <= s@.len(),
    ensures
        r == le32(s@[at as int], s@[at + 1], s@[at + 2], s@[at + 3]),
{
    s[at] as u32 + 0x100 * (s[at + 1] as u32) + 0x1_0000 * (s[at + 2] as u32) + 0x100_0000 * (
    s[at + 3] as u32)
}

/// The 64-bit value at `at`, most significant octet first.
pub fn read_be64(s: &[u8], at: usize) -> (r: u64)
    requires
        at + 8 <= s@.len(),
    ensures
        r as nat == be_nat(s@.subrange(at as int, at + 8)),
{
    let mut r: u64 = 0;
    let mut i: usize = 0;
    while i < 8
        invariant
            i <= 8,
            at + 8 <= s.len(),
            r as nat == be_nat(s@.subrange(at as int, at + i)),
            i == 0 ==> r < 1,
            i == 1 ==> r < 0x100,
            i == 2 ==> r < 0x1_0000,
            i == 3 ==> r < 0x100_0000,
            i == 4 ==> r < 0x1_0000_0000,
            i == 5 ==> r < 0x100_0000_0000,
            i == 6 ==> r < 0x1_0000_0000_0000,
            i == 7 ==> r < 0x100_0000_0000_0000,
        decreases 8 - i,
    {
        proof {
            let t = s@.subrange(at as int, at + i + 1);
            assert(t.drop_last() =~= s@.subrange(at as int, at + i));
        }
        r = 256 * r + s[at + i] as u64;
        i = i + 1;
    }
    r
}

/// An owned copy of `s[from..to]`.
pub fn sub_vec(s: &[u8], from: usize, to: usize) -> (r: Vec<u8>)
    requires
        from <= to <= s@.len(),
    ensures
        r@ == s@.subrange(from as int, to as int),
{
    vstd::slice::slice_to_vec(vstd::slice::slice_subrange(s, from, to))
}

/// An owned copy of a slice.
pub fn to_vec(s: &[u8]) -> (r: Vec<u8>)
    ensures
        r@ == s@,
{
    vstd::slice::slice_to_vec(s)
}

/// The 6 octets of `s` at `at`.
pub fn array6(s: &[u8], at: usize) -> (r: [u8; 6])
    requires
        at + 6 <= s@.len(),
    ensures
        r@ == s@.subrange(at as int, at + 6),
{
    let r: [u8; 6] = [s[at], s[at + 1], s[at + 2], s[at + 3], s[at + 4], s[at + 5]];
    assert(r@ =~= s@.subrange(at as int, at + 6));
    r
}

/// The 8 octets of `s` at `at`.
pub fn array8(s: &[u8], at: usize) -> (r: [u8; 8])
    requires
        at + 8 <= s@.len(),
    ensures
        r@ == s@.subrange(at as int, at + 8),
{
    let mut r: [u8; 8] = [0u8; 8];
    let mut i: usize = 0;
    while i < 8
        invariant
            i <= 8,
            at + 8 <= s.len(),
            forall|j: int| 0 <= j < i ==> r@[j] == s@[at + j],
        decreases 8 - i,
    {
        r[i] = s[at + i];
        i = i + 1;
    }
    assert(r@ =~= s@.subrange(at as int, at + 8));
    r
}

/// The 16 octets of `s` at `at`.
pub fn array16(s: &[u8], at: usize) -> (r: [u8; 16])
    requires
        at + 16 <= s@.len(),
    ensures
        r@ == s@.subrange(at as int, at + 16),
{
    let mut r: [u8; 16] = [0u8; 16];
    let mut i: usize = 0;
    while i < 16
        invariant
            i <= 16,
            at + 16 <= s.len(),
            forall|j: int| 0 <= j < i ==> r@[j] == s@[at + j],
        decreases 16 - i,
    {
        r[i] = s[at + i];
        i = i + 1;
    }
    assert(r@ =~= s@.subrange(at as int, at + 16));
    r
}

/// The 32 octets of `s` at `at`.
pub fn array32(s: &[u8], at: usize) -> (r: [u8; 32])
    requires
        at + 32 <= s@.len(),
    ensures
        r@ == s@.subrange(at as int, at + 32),
{
    let mut r: [u8; 32] = [0u8; 32];
    let mut i: usize = 0;
    while i < 32
        invariant
            i <= 32,
            at + 32 <= s.len(),
            forall|j: int| 0 <= j < i ==> r@[j] == s@[at + j],
        decreases 32 - i,
    {
        r[i] = s[at + i];
        i = i + 1;
    }
    assert(r@ =~= s@.subrange(at as int, at + 32));
    r
}

/// The 48 octets of `s` at `at`.
pub fn array48(s: &[u8], at: usize) -> (r: [u8; 48])
    requires
        at + 48 <= s@.len(),
    ensures
        r@ == s@.subrange(at as int, at + 48),
{
    let mut r: [u8; 48] = [0u8; 48];
    let mut i: usize = 0;
    while i < 48
        invariant
            i <= 48,
            at + 48 <= s.len(),
            forall|j: int| 0 <= j < i ==> r@[j] == s@[at + j],
        decreases 48 - i,
    {
        r[i] = s[at + i];
        i = i + 1;
    }
    assert(r@ =~= s@.subrange(at as int, at + 48));
    r
}

/// The 64 octets of `s` at `at`.
pub fn array64(s: &[u8], at: usize) -> (r: [u8; 64])
    requires
        at + 64 <= s@.len(),
    ensures
        r@ == s@.subrange(at as int, at + 64),
{
    let mut r: [u8; 64] = [0u8; 64];
    let mut i: usize = 0;
    while i < 64
        invariant
            i <= 64,
            at + 64 <= s.len(),
            forall|j: int| 0 <= j < i ==> r@[j] == s@[at + j],
        decreases 64 - i,
    {
        r[i] = s[at + i];
        i = i + 1;
    }
    assert(r@ =~= s@.subrange(at as int, at + 64));
    r
}

/// Whether two slices hold the same octets.
pub fn same(a: &[u8], b: &[u8]) -> (r: bool)
    ensures
        r == (a@ == b@),
{
    if a.len() != b.len() {
        return false;
    }
    let mut i: usize = 0;
    while i < a.len()
        invariant
            i <= a@.len(),
            a@.len() == b@.len(),
            forall|j: int| 0 <= j < i ==> a@[j] == b@[j],
        decreases a@.len() - i,
    {
        if a[i] != b[i] {
            return false;
        }
        i = i + 1;
    }
    assert(a@ =~= b@);
    true
}

/// Whether `a` is before `b` in lexicographic order.
pub fn less(a: &[u8], b: &[u8]) -> (r: bool)
    ensures
        r == lex_less(a@, b@),
{
    let mut i: usize = 0;
    assert(a@.subrange(0, a@.len() as int) =~= a@);
    assert(b@.subrange(0, b@.len() as int) =~= b@);
    while i < a.len() && i < b.len()
        invariant
            i <= a@.len(),
            i <= b@.len(),
            lex_less(a@, b@) == lex_less(
                a@.subrange(i as int, a@.len() as int),
                b@.subrange(i as int, b@.len() as int),
            ),
        decreases a@.len() - i,
    {
        proof {
            let ta = a@.subrange(i as int, a@.len() as int);
            let tb = b@.subrange(i as int, b@.len() as int);
            assert(ta.drop_first() =~= a@.subrange(i + 1, a@.len() as int));
            assert(tb.drop_first() =~= b@.subrange(i + 1, b@.len() as int));
            assert(ta[0] == a@[i as int] && tb[0] == b@[i as int]);
        }
        if a[i] != b[i] {
            return a[i] < b[i];
        }
        i = i + 1;
    }
    i < b.len()
}

} // verus!
