//! Fixed-width wide-character text decoding.
//!
//! Snapshot records embed text as fixed-size arrays of 16-bit code units,
//! null-terminated or filled to capacity. Decoding takes the prefix before
//! the first zero unit and reads it as UTF-16, substituting the replacement
//! character for any unpaired surrogate instead of failing.

use vstd::prelude::*;

verus! {

/// The character substituted for a malformed code-unit sequence.
pub open spec fn replacement_char() -> char {
    '\u{FFFD}'
}

/// True for a high (leading) surrogate code unit.
pub open spec fn is_high_surrogate(u: u16) -> bool {
    0xD800 <= u < 0xDC00
}

/// True for a low (trailing) surrogate code unit.
pub open spec fn is_low_surrogate(u: u16) -> bool {
    0xDC00 <= u < 0xE000
}

/// The scalar value of the pair formed by surrogates `hi` and `lo`.
pub open spec fn surrogate_value(hi: u16, lo: u16) -> u32 {
    (0x10000 + ((hi - 0xD800) * 0x400) + (lo - 0xDC00)) as u32
}

/// The prefix of `s` before its first zero unit; all of `s` when no unit is
/// zero.
pub open spec fn terminated_prefix(s: Seq<u16>) -> Seq<u16>
    decreases s.len(),
{
    if s.len() == 0 {
        s
    } else if s[0] == 0 {
        Seq::empty()
    } else {
        seq![s[0]] + terminated_prefix(s.drop_first())
    }
}

/// The UTF-16 reading of `s`, with the replacement character substituted for
/// every unpaired surrogate.
pub open spec fn utf16_chars(s: Seq<u16>) -> Seq<char>
    decreases s.len(),
{
    if s.len() == 0 {
        Seq::empty()
    } else if is_high_surrogate(s[0]) && s.len() >= 2 && is_low_surrogate(s[1]) {
        seq![surrogate_value(s[0], s[1]) as char] + utf16_chars(s.skip(2))
    } else if is_high_surrogate(s[0]) || is_low_surrogate(s[0]) {
        seq![replacement_char()] + utf16_chars(s.drop_first())
    } else {
        seq![s[0] as char] + utf16_chars(s.drop_first())
    }
}

/// What a fixed-width text field holds: its null-terminated prefix, read as
/// UTF-16 with replacement.
pub open spec fn utf16_text(s: Seq<u16>) -> Seq<char> {
    utf16_chars(terminated_prefix(s))
}

/// True when `needle` occurs contiguously inside `hay`.
pub open spec fn contains_text(hay: Seq<char>, needle: Seq<char>) -> bool {
    exists|i: int|
        0 <= i && i + needle.len() <= hay.len() && #[trigger] hay.subrange(i, i + needle.len())
            == needle
}

/// A text contains itself.
pub proof fn lemma_contains_text_refl(s: Seq<char>)
    ensures
        contains_text(s, s),
{
    assert(s.subrange(0, 0 + s.len() as int) =~= s);
}

/// Relies on `char::from_u32`: `Some` exactly for a Unicode scalar value,
/// and the character returned has that value.
pub assume_specification[ char::from_u32 ](v: u32) -> (r: Option<char>)
    ensures
        r is Some <==> (v < 0xD800 || (0xE000 <= v && v <= 0x10FFFF)),
        r matches Some(c) ==> c as u32 == v,
;

/// Relies on `String::push`: appends exactly the one character.
#[verifier::external_body]
fn push_char(s: &mut String, c: char)
    ensures
        final(s)@ == old(s)@.push(c),
{
    s.push(c);
}

/// When the first `e` units are non-zero and unit `e` (if any) is zero, the
/// terminated prefix is exactly the first `e` units.
pub proof fn lemma_terminated_prefix_take(s: Seq<u16>, e: int)
    requires
        0 <= e <= s.len(),
        forall|j: int| 0 <= j < e ==> s[j] != 0,
        e < s.len() ==> s[e] == 0,
    ensures
        terminated_prefix(s) == s.take(e),
    decreases e,
{
    if s.len() == 0 {
        assert(terminated_prefix(s) =~= s.take(e));
    } else if e == 0 {
        assert(terminated_prefix(s) =~= s.take(e));
    } else {
        lemma_terminated_prefix_take(s.drop_first(), e - 1);
        assert(s.drop_first().take(e - 1) =~= s.take(e).drop_first());
        assert(seq![s[0]] + s.take(e).drop_first() =~= s.take(e));
    }
}

/// An array with no zero unit decodes its full length: nothing is cut.
pub proof fn lemma_terminated_prefix_full(s: Seq<u16>)
    requires
        forall|j: int| 0 <= j < s.len() ==> s[j] != 0,
    ensures
        terminated_prefix(s) == s,
{
    lemma_terminated_prefix_take(s, s.len() as int);
    assert(s.take(s.len() as int) =~= s);
}

/// Units outside the surrogate range decode one for one: the reading has the
/// same length and carries each unit over as the character of that value.
pub proof fn lemma_utf16_chars_plain(s: Seq<u16>)
    requires
        forall|j: int|
            0 <= j < s.len() ==> !is_high_surrogate(#[trigger] s[j]) && !is_low_surrogate(s[j]),
    ensures
        utf16_chars(s).len() == s.len(),
        forall|j: int| 0 <= j < s.len() ==> utf16_chars(s)[j] == #[trigger] s[j] as char,
    decreases s.len(),
{
    if s.len() > 0 {
        lemma_utf16_chars_plain(s.drop_first());
        assert forall|j: int| 0 <= j < s.len() implies utf16_chars(s)[j] == #[trigger] s[j] as char by {
            if j > 0 {
                assert(utf16_chars(s)[j] == utf16_chars(s.drop_first())[j - 1]);
                assert(s.drop_first()[j - 1] == s[j]);
            }
        }
    }
}

/// A surrogate that does not begin a valid pair decodes to the replacement
/// character, in place, without fault.
pub proof fn lemma_utf16_chars_unpaired_head(s: Seq<u16>)
    requires
        s.len() > 0,
        is_high_surrogate(s[0]) || is_low_surrogate(s[0]),
        is_high_surrogate(s[0]) && s.len() >= 2 ==> !is_low_surrogate(s[1]),
    ensures
        utf16_chars(s).len() > 0,
        utf16_chars(s)[0] == replacement_char(),
{
}

/// Decodes the null-terminated prefix of `units` as UTF-16, substituting the
/// replacement character for every unpaired surrogate.
pub fn utf16_lossy(units: &[u16]) -> (r: String)
    ensures
        r@ == utf16_text(units@),
{
    let n = units.len();
    let mut end: usize = 0;
    while end < n && units[end] != 0
        invariant
            end <= n == units@.len(),
            forall|j: int| 0 <= j < end ==> units@[j] != 0,
        decreases n - end,
    {
        end = end + 1;
    }
    proof {
        lemma_terminated_prefix_take(units@, end as int);
    }
    let ghost t = units@.take(end as int);
    let mut out = String::new();
    assert(t.skip(0) =~= t);
    assert(out@ + utf16_chars(t) =~= utf16_chars(t));
    let mut i: usize = 0;
    while i < end
        invariant
            i <= end <= n == units@.len(),
            t == units@.take(end as int),
            out@ + utf16_chars(t.skip(i as int)) == utf16_chars(t),
        decreases end - i,
    {
        let u = units[i];
        assert(t.skip(i as int)[0] == t[i as int]);
        if 0xD800 <= u && u < 0xDC00 && i + 1 < end && 0xDC00 <= units[i + 1] && units[i + 1]
            < 0xE000 {
            let lo = units[i + 1];
            assert(t.skip(i as int)[1] == t[i + 1]);
            let v: u32 = 0x10000 + ((u as u32) - 0xD800) * 0x400 + ((lo as u32) - 0xDC00);
            let c = char::from_u32(v).unwrap();
            push_char(&mut out, c);
            proof {
                vstd::utf8::char_u32_cast(c, v);
                assert(t.skip(i as int).skip(2) =~= t.skip(i + 2));
                assert(out@ + utf16_chars(t.skip(i + 2)) =~= utf16_chars(t));
            }
            i = i + 2;
        } else if 0xD800 <= u && u < 0xE000 {
            push_char(&mut out, '\u{FFFD}');
            proof {
                assert(t.skip(i as int).drop_first() =~= t.skip(i + 1));
                assert(out@ + utf16_chars(t.skip(i + 1)) =~= utf16_chars(t));
            }
            i = i + 1;
        } else {
            let c = char::from_u32(u as u32).unwrap();
            push_char(&mut out, c);
            proof {
                vstd::utf8::char_u32_cast(c, u as u32);
                assert(t.skip(i as int).drop_first() =~= t.skip(i + 1));
                assert(out@ + utf16_chars(t.skip(i + 1)) =~= utf16_chars(t));
            }
            i = i + 1;
        }
    }
    assert(t.skip(end as int) =~= Seq::<u16>::empty());
    assert(out@ =~= utf16_chars(t));
    out
}

} // verus!
