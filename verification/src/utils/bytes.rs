//! Little-endian scalar and array codecs over byte buffers.
//!
//! Every snapshot record is laid out as a sequence of 4-byte scalars
//! (integers and raw floating-point bit patterns), 2-byte wide-character
//! code units, and alignment padding. The functions here read and write
//! those primitives and come with the round-trip lemmas that the record
//! codecs build on.

use vstd::bytes::*;
use vstd::prelude::*;

verus! {

/// The `u16` stored little-endian at byte offset `i`.
pub open spec fn le16_at(b: Seq<u8>, i: int) -> u16 {
    spec_u16_from_le_bytes(b.subrange(i, i + 2))
}

/// The `u32` stored little-endian at byte offset `i`.
pub open spec fn le32_at(b: Seq<u8>, i: int) -> u32 {
    spec_u32_from_le_bytes(b.subrange(i, i + 4))
}

/// The `n` little-endian `u16` values stored consecutively at byte offset `i`.
pub open spec fn words_at(b: Seq<u8>, i: int, n: nat) -> Seq<u16> {
    Seq::new(n, |k: int| le16_at(b, i + 2 * k))
}

/// The `n` little-endian `u32` values stored consecutively at byte offset `i`.
pub open spec fn dwords_at(b: Seq<u8>, i: int, n: nat) -> Seq<u32> {
    Seq::new(n, |k: int| le32_at(b, i + 4 * k))
}

/// The little-endian encoding of a sequence of `u16` values.
pub open spec fn enc_words(s: Seq<u16>) -> Seq<u8>
    decreases s.len(),
{
    if s.len() == 0 {
        Seq::empty()
    } else {
        spec_u16_to_le_bytes(s[0]) + enc_words(s.drop_first())
    }
}

/// The little-endian encoding of a sequence of `u32` values.
pub open spec fn enc_dwords(s: Seq<u32>) -> Seq<u8>
    decreases s.len(),
{
    if s.len() == 0 {
        Seq::empty()
    } else {
        spec_u32_to_le_bytes(s[0]) + enc_dwords(s.drop_first())
    }
}

/// A run of `n` zero bytes, as written for alignment padding.
pub open spec fn zero_bytes(n: nat) -> Seq<u8> {
    Seq::new(n, |k: int| 0u8)
}

/// True when the `n` bytes at offset `i` are all zero.
pub open spec fn zero_at(b: Seq<u8>, i: int, n: nat) -> bool {
    forall|k: int| i <= k < i + n ==> #[trigger] b[k] == 0
}

/// The `i32` whose two's-complement bit pattern is `x`.
pub open spec fn spec_i32_from_raw(x: u32) -> i32 {
    if x < 0x8000_0000 {
        x as i32
    } else {
        (x - 0x1_0000_0000) as i32
    }
}

/// The two's-complement bit pattern of `v`.
pub open spec fn spec_i32_to_raw(v: i32) -> u32 {
    if v >= 0 {
        v as u32
    } else {
        (v + 0x1_0000_0000) as u32
    }
}

pub proof fn lemma_i32_raw_round_trip(x: u32)
    ensures
        spec_i32_to_raw(spec_i32_from_raw(x)) == x,
{
}

/// Reads the little-endian `u16` at byte offset `i`.
pub fn read_u16_at(b: &[u8], i: usize) -> (r: u16)
    requires
        i + 2 <= b@.len(),
    ensures
        r == le16_at(b@, i as int),
{
    // pins the slice length to a usize, so that `i + 2` cannot overflow
    let _n = b.len();
    u16_from_le_bytes(&b[i..i + 2])
}

/// Reads the little-endian `u32` at byte offset `i`.
pub fn read_u32_at(b: &[u8], i: usize) -> (r: u32)
    requires
        i + 4 <= b@.len(),
    ensures
        r == le32_at(b@, i as int),
{
    // pins the slice length to a usize, so that `i + 4` cannot overflow
    let _n = b.len();
    u32_from_le_bytes(&b[i..i + 4])
}

/// Reads the little-endian `i32` at byte offset `i`.
pub fn read_i32_at(b: &[u8], i: usize) -> (r: i32)
    requires
        i + 4 <= b@.len(),
    ensures
        r == spec_i32_from_raw(le32_at(b@, i as int)),
{
    let x = read_u32_at(b, i);
    if x < 0x8000_0000 {
        x as i32
    } else {
        ((x as i64) - 0x1_0000_0000) as i32
    }
}

/// Reads `n` consecutive little-endian `u16` values starting at byte offset `i`.
pub fn read_words_at(b: &[u8], i: usize, n: usize) -> (r: Vec<u16>)
    requires
        i + 2 * n <= b@.len(),
    ensures
        r@ == words_at(b@, i as int, n as nat),
{
    let _len = b.len();
    let mut out: Vec<u16> = Vec::new();
    let mut k: usize = 0;
    while k < n
        invariant
            k <= n,
            i + 2 * n <= b@.len(),
            b@.len() <= usize::MAX,
            out@ == words_at(b@, i as int, k as nat),
        decreases n - k,
    {
        let w = read_u16_at(b, i + 2 * k);
        out.push(w);
        k = k + 1;
        assert(out@ =~= words_at(b@, i as int, k as nat));
    }
    out
}

/// Reads `n` consecutive little-endian `u32` values starting at byte offset `i`.
pub fn read_dwords_at(b: &[u8], i: usize, n: usize) -> (r: Vec<u32>)
    requires
        i + 4 * n <= b@.len(),
    ensures
        r@ == dwords_at(b@, i as int, n as nat),
{
    let _len = b.len();
    let mut out: Vec<u32> = Vec::new();
    let mut k: usize = 0;
    while k < n
        invariant
            k <= n,
            i + 4 * n <= b@.len(),
            b@.len() <= usize::MAX,
            out@ == dwords_at(b@, i as int, k as nat),
        decreases n - k,
    {
        let w = read_u32_at(b, i + 4 * k);
        out.push(w);
        k = k + 1;
        assert(out@ =~= dwords_at(b@, i as int, k as nat));
    }
    out
}

/// Appends the little-endian encoding of `v` to `out`.
pub fn write_u16(out: &mut Vec<u8>, v: u16)
    ensures
        final(out)@ == old(out)@ + spec_u16_to_le_bytes(v),
{
    let mut enc = u16_to_le_bytes(v);
    out.append(&mut enc);
}

/// Appends the little-endian encoding of `v` to `out`.
pub fn write_u32(out: &mut Vec<u8>, v: u32)
    ensures
        final(out)@ == old(out)@ + spec_u32_to_le_bytes(v),
{
    let mut enc = u32_to_le_bytes(v);
    out.append(&mut enc);
}

/// Appends the little-endian two's-complement encoding of `v` to `out`.
pub fn write_i32(out: &mut Vec<u8>, v: i32)
    ensures
        final(out)@ == old(out)@ + spec_u32_to_le_bytes(spec_i32_to_raw(v)),
{
    let raw: u32 = if v >= 0 {
        v as u32
    } else {
        ((v as i64) + 0x1_0000_0000) as u32
    };
    write_u32(out, raw);
}

/// Appends the little-endian encoding of every value in `s` to `out`.
pub fn write_words(out: &mut Vec<u8>, s: &Vec<u16>)
    ensures
        final(out)@ == old(out)@ + enc_words(s@),
{
    let mut k: usize = 0;
    while k < s.len()
        invariant
            k <= s@.len(),
            out@ == old(out)@ + enc_words(s@.take(k as int)),
        decreases s@.len() - k,
    {
        write_u16(out, s[k]);
        k = k + 1;
        proof {
            lemma_enc_words_step(s@, k as int);
        }
    }
    assert(s@.take(s@.len() as int) =~= s@);
}

/// Appends the little-endian encoding of every value in `s` to `out`.
pub fn write_dwords(out: &mut Vec<u8>, s: &Vec<u32>)
    ensures
        final(out)@ == old(out)@ + enc_dwords(s@),
{
    let mut k: usize = 0;
    while k < s.len()
        invariant
            k <= s@.len(),
            out@ == old(out)@ + enc_dwords(s@.take(k as int)),
        decreases s@.len() - k,
    {
        write_u32(out, s[k]);
        k = k + 1;
        proof {
            lemma_enc_dwords_step(s@, k as int);
        }
    }
    assert(s@.take(s@.len() as int) =~= s@);
}

/// Appends `n` zero bytes to `out`.
pub fn write_zeros(out: &mut Vec<u8>, n: usize)
    ensures
        final(out)@ == old(out)@ + zero_bytes(n as nat),
{
    let mut k: usize = 0;
    while k < n
        invariant
            k <= n,
            out@ == old(out)@ + zero_bytes(k as nat),
        decreases n - k,
    {
        out.push(0u8);
        k = k + 1;
        assert(old(out)@ + zero_bytes((k - 1) as nat) + seq![0u8] =~= old(out)@ + zero_bytes(
            k as nat,
        ));
    }
}

/// A vector of `n` zero code units.
pub fn zero_words(n: usize) -> (r: Vec<u16>)
    ensures
        r@ == Seq::new(n as nat, |k: int| 0u16),
{
    let mut out: Vec<u16> = Vec::new();
    let mut k: usize = 0;
    while k < n
        invariant
            k <= n,
            out@ == Seq::new(k as nat, |j: int| 0u16),
        decreases n - k,
    {
        out.push(0u16);
        k = k + 1;
        assert(out@ =~= Seq::new(k as nat, |j: int| 0u16));
    }
    out
}

/// A vector of `n` zero 32-bit values.
pub fn zero_dwords(n: usize) -> (r: Vec<u32>)
    ensures
        r@ == Seq::new(n as nat, |k: int| 0u32),
{
    let mut out: Vec<u32> = Vec::new();
    let mut k: usize = 0;
    while k < n
        invariant
            k <= n,
            out@ == Seq::new(k as nat, |j: int| 0u32),
        decreases n - k,
    {
        out.push(0u32);
        k = k + 1;
        assert(out@ =~= Seq::new(k as nat, |j: int| 0u32));
    }
    out
}

proof fn lemma_enc_words_step(s: Seq<u16>, k: int)
    requires
        0 < k <= s.len(),
    ensures
        enc_words(s.take(k)) == enc_words(s.take(k - 1)) + spec_u16_to_le_bytes(s[k - 1]),
    decreases k,
{
    let t = s.take(k);
    if k == 1 {
        assert(t.drop_first() =~= Seq::<u16>::empty());
        assert(enc_words(t) == spec_u16_to_le_bytes(s[0]) + enc_words(t.drop_first()));
        assert(enc_words(s.take(0)) =~~= Seq::<u8>::empty());
        assert(enc_words(s.take(0)) + spec_u16_to_le_bytes(s[0]) =~= spec_u16_to_le_bytes(s[0])
            + enc_words(t.drop_first()));
    } else {
        lemma_enc_words_step(s.drop_first(), k - 1);
        assert(t.drop_first() =~= s.drop_first().take(k - 1));
        assert(s.take(k - 1).drop_first() =~= s.drop_first().take(k - 2));
        assert(s.drop_first()[k - 2] == s[k - 1]);
        assert(enc_words(s.take(k - 1)) + spec_u16_to_le_bytes(s[k - 1]) =~= spec_u16_to_le_bytes(
            s[0],
        ) + (enc_words(s.drop_first().take(k - 2)) + spec_u16_to_le_bytes(s[k - 1])));
    }
}

proof fn lemma_enc_dwords_step(s: Seq<u32>, k: int)
    requires
        0 < k <= s.len(),
    ensures
        enc_dwords(s.take(k)) == enc_dwords(s.take(k - 1)) + spec_u32_to_le_bytes(s[k - 1]),
    decreases k,
{
    let t = s.take(k);
    if k == 1 {
        assert(t.drop_first() =~= Seq::<u32>::empty());
        assert(enc_dwords(t) == spec_u32_to_le_bytes(s[0]) + enc_dwords(t.drop_first()));
        assert(enc_dwords(s.take(0)) =~~= Seq::<u8>::empty());
        assert(enc_dwords(s.take(0)) + spec_u32_to_le_bytes(s[0]) =~= spec_u32_to_le_bytes(s[0])
            + enc_dwords(t.drop_first()));
    } else {
        lemma_enc_dwords_step(s.drop_first(), k - 1);
        assert(t.drop_first() =~= s.drop_first().take(k - 1));
        assert(s.take(k - 1).drop_first() =~= s.drop_first().take(k - 2));
        assert(s.drop_first()[k - 2] == s[k - 1]);
        assert(enc_dwords(s.take(k - 1)) + spec_u32_to_le_bytes(s[k - 1]) =~= spec_u32_to_le_bytes(
            s[0],
        ) + (enc_dwords(s.drop_first().take(k - 2)) + spec_u32_to_le_bytes(s[k - 1])));
    }
}

/// The 4-byte encoding of the `u32` read at offset `i` is exactly the 4 bytes
/// at offset `i`.
pub proof fn lemma_enc_of_le32(b: Seq<u8>, i: int)
    requires
        0 <= i,
        i + 4 <= b.len(),
    ensures
        spec_u32_to_le_bytes(le32_at(b, i)) == b.subrange(i, i + 4),
{
    lemma_auto_spec_u32_to_from_le_bytes();
}

/// The 2-byte encoding of the `u16` read at offset `i` is exactly the 2 bytes
/// at offset `i`.
pub proof fn lemma_enc_of_le16(b: Seq<u8>, i: int)
    requires
        0 <= i,
        i + 2 <= b.len(),
    ensures
        spec_u16_to_le_bytes(le16_at(b, i)) == b.subrange(i, i + 2),
{
    lemma_auto_spec_u16_to_from_le_bytes();
}

/// Encoding the `n` words read at offset `i` reproduces the `2 * n` bytes at
/// offset `i`.
pub proof fn lemma_enc_of_words_at(b: Seq<u8>, i: int, n: nat)
    requires
        0 <= i,
        i + 2 * n <= b.len(),
    ensures
        enc_words(words_at(b, i, n)) == b.subrange(i, i + 2 * n),
    decreases n,
{
    if n == 0 {
        assert(enc_words(words_at(b, i, n)) =~= b.subrange(i, i));
    } else {
        lemma_enc_of_words_at(b, i + 2, (n - 1) as nat);
        lemma_enc_of_le16(b, i);
        let s = words_at(b, i, n);
        assert(s.drop_first() =~= words_at(b, i + 2, (n - 1) as nat));
        assert(b.subrange(i, i + 2) + b.subrange(i + 2, i + 2 * n) =~= b.subrange(i, i + 2 * n));
    }
}

/// Encoding the `n` 32-bit values read at offset `i` reproduces the `4 * n`
/// bytes at offset `i`.
pub proof fn lemma_enc_of_dwords_at(b: Seq<u8>, i: int, n: nat)
    requires
        0 <= i,
        i + 4 * n <= b.len(),
    ensures
        enc_dwords(dwords_at(b, i, n)) == b.subrange(i, i + 4 * n),
    decreases n,
{
    if n == 0 {
        assert(enc_dwords(dwords_at(b, i, n)) =~= b.subrange(i, i));
    } else {
        lemma_enc_of_dwords_at(b, i + 4, (n - 1) as nat);
        lemma_enc_of_le32(b, i);
        let s = dwords_at(b, i, n);
        assert(s.drop_first() =~= dwords_at(b, i + 4, (n - 1) as nat));
        assert(b.subrange(i, i + 4) + b.subrange(i + 4, i + 4 * n) =~= b.subrange(i, i + 4 * n));
    }
}

/// Zero bytes read back as the zero bytes at a zeroed offset range.
pub proof fn lemma_zero_bytes_at(b: Seq<u8>, i: int, n: nat)
    requires
        0 <= i,
        i + n <= b.len(),
        zero_at(b, i, n),
    ensures
        zero_bytes(n) == b.subrange(i, i + n),
{
    assert(zero_bytes(n) =~= b.subrange(i, i + n));
}

/// Lengths of the primitive encodings.
pub proof fn lemma_enc_words_len(s: Seq<u16>)
    ensures
        enc_words(s).len() == 2 * s.len(),
    decreases s.len(),
{
    if s.len() > 0 {
        lemma_enc_words_len(s.drop_first());
        lemma_auto_spec_u16_to_from_le_bytes();
    }
}

pub proof fn lemma_enc_dwords_len(s: Seq<u32>)
    ensures
        enc_dwords(s).len() == 4 * s.len(),
    decreases s.len(),
{
    if s.len() > 0 {
        lemma_enc_dwords_len(s.drop_first());
        lemma_auto_spec_u32_to_from_le_bytes();
    }
}

/// The `n` little-endian `i32` values stored consecutively at byte offset `i`.
pub open spec fn i32s_at(b: Seq<u8>, i: int, n: nat) -> Seq<i32> {
    Seq::new(n, |k: int| spec_i32_from_raw(le32_at(b, i + 4 * k)))
}

/// The little-endian encoding of a sequence of `i32` values.
pub open spec fn enc_i32s(s: Seq<i32>) -> Seq<u8>
    decreases s.len(),
{
    if s.len() == 0 {
        Seq::empty()
    } else {
        spec_u32_to_le_bytes(spec_i32_to_raw(s[0])) + enc_i32s(s.drop_first())
    }
}

/// Reads `n` consecutive little-endian `i32` values starting at byte offset `i`.
pub fn read_i32s_at(b: &[u8], i: usize, n: usize) -> (r: Vec<i32>)
    requires
        i + 4 * n <= b@.len(),
    ensures
        r@ == i32s_at(b@, i as int, n as nat),
{
    let _len = b.len();
    let mut out: Vec<i32> = Vec::new();
    let mut k: usize = 0;
    while k < n
        invariant
            k <= n,
            i + 4 * n <= b@.len(),
            b@.len() <= usize::MAX,
            out@ == i32s_at(b@, i as int, k as nat),
        decreases n - k,
    {
        let w = read_i32_at(b, i + 4 * k);
        out.push(w);
        k = k + 1;
        assert(out@ =~= i32s_at(b@, i as int, k as nat));
    }
    out
}

/// Appends the little-endian encoding of every value in `s` to `out`.
pub fn write_i32s(out: &mut Vec<u8>, s: &Vec<i32>)
    ensures
        final(out)@ == old(out)@ + enc_i32s(s@),
{
    let mut k: usize = 0;
    while k < s.len()
        invariant
            k <= s@.len(),
            out@ == old(out)@ + enc_i32s(s@.take(k as int)),
        decreases s@.len() - k,
    {
        write_i32(out, s[k]);
        k = k + 1;
        proof {
            lemma_enc_i32s_step(s@, k as int);
        }
    }
    assert(s@.take(s@.len() as int) =~= s@);
}

/// A vector of `n` zero `i32` values.
pub fn zero_i32s(n: usize) -> (r: Vec<i32>)
    ensures
        r@ == Seq::new(n as nat, |k: int| 0i32),
{
    let mut out: Vec<i32> = Vec::new();
    let mut k: usize = 0;
    while k < n
        invariant
            k <= n,
            out@ == Seq::new(k as nat, |j: int| 0i32),
        decreases n - k,
    {
        out.push(0i32);
        k = k + 1;
        assert(out@ =~= Seq::new(k as nat, |j: int| 0i32));
    }
    out
}

proof fn lemma_enc_i32s_step(s: Seq<i32>, k: int)
    requires
        0 < k <= s.len(),
    ensures
        enc_i32s(s.take(k)) == enc_i32s(s.take(k - 1)) + spec_u32_to_le_bytes(
            spec_i32_to_raw(s[k - 1]),
        ),
    decreases k,
{
    let t = s.take(k);
    if k == 1 {
        assert(t.drop_first() =~= Seq::<i32>::empty());
        assert(enc_i32s(t) == spec_u32_to_le_bytes(spec_i32_to_raw(s[0])) + enc_i32s(
            t.drop_first(),
        ));
        assert(enc_i32s(s.take(0)) =~~= Seq::<u8>::empty());
        assert(enc_i32s(s.take(0)) + spec_u32_to_le_bytes(spec_i32_to_raw(s[0]))
            =~= spec_u32_to_le_bytes(spec_i32_to_raw(s[0])) + enc_i32s(t.drop_first()));
    } else {
        lemma_enc_i32s_step(s.drop_first(), k - 1);
        assert(t.drop_first() =~= s.drop_first().take(k - 1));
        assert(s.take(k - 1).drop_first() =~= s.drop_first().take(k - 2));
        assert(s.drop_first()[k - 2] == s[k - 1]);
        assert(enc_i32s(s.take(k - 1)) + spec_u32_to_le_bytes(spec_i32_to_raw(s[k - 1]))
            =~= spec_u32_to_le_bytes(spec_i32_to_raw(s[0])) + (enc_i32s(
            s.drop_first().take(k - 2),
        ) + spec_u32_to_le_bytes(spec_i32_to_raw(s[k - 1]))));
    }
}

/// Encoding the `n` `i32` values read at offset `i` reproduces the `4 * n`
/// bytes at offset `i`.
pub proof fn lemma_enc_of_i32s_at(b: Seq<u8>, i: int, n: nat)
    requires
        0 <= i,
        i + 4 * n <= b.len(),
    ensures
        enc_i32s(i32s_at(b, i, n)) == b.subrange(i, i + 4 * n),
    decreases n,
{
    if n == 0 {
        assert(enc_i32s(i32s_at(b, i, n)) =~= b.subrange(i, i));
    } else {
        lemma_enc_of_i32s_at(b, i + 4, (n - 1) as nat);
        lemma_i32_raw_round_trip(le32_at(b, i));
        lemma_enc_of_le32(b, i);
        let s = i32s_at(b, i, n);
        assert(s.drop_first() =~= i32s_at(b, i + 4, (n - 1) as nat));
        assert(b.subrange(i, i + 4) + b.subrange(i + 4, i + 4 * n) =~= b.subrange(i, i + 4 * n));
    }
}


pub proof fn lemma_enc_i32s_len(s: Seq<i32>)
    ensures
        enc_i32s(s).len() == 4 * s.len(),
    decreases s.len(),
{
    if s.len() > 0 {
        lemma_enc_i32s_len(s.drop_first());
        lemma_auto_spec_u32_to_from_le_bytes();
    }
}

} // verus!

