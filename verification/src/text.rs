//! Text operations of the standard library that the decisions rest on.

use vstd::prelude::*;

verus! {

/// The ASCII lowercase of a character: `A` to `Z` become `a` to `z`, every
/// other character stays as it is.
pub open spec fn ascii_lower(c: char) -> char {
    if 'A' <= c && c <= 'Z' {
        ((c as u32) + 32) as char
    } else {
        c
    }
}

/// ASCII lowering turns each capital letter `A` to `Z` into the letter 32
/// code points above it, its small letter, and leaves every other character
/// as it is.
pub proof fn lemma_ascii_lower(c: char)
    ensures
        'A' <= c && c <= 'Z' ==> ascii_lower(c) as u32 == c as u32 + 32,
        'A' <= c && c <= 'Z' ==> 'a' <= ascii_lower(c) && ascii_lower(c) <= 'z',
        !('A' <= c && c <= 'Z') ==> ascii_lower(c) == c,
{
}

/// A text with no capital letter `A` to `Z` is its own ASCII lowercase, and a
/// text that matches it up to ASCII case lowers to it.
pub proof fn lemma_lowers_to_uncapitalized(a: Seq<char>, name: Seq<char>)
    requires
        forall|i: int| 0 <= i < name.len() ==> !('A' <= #[trigger] name[i] && name[i] <= 'Z'),
        eq_ignoring_ascii_case(a, name),
    ensures
        a.map_values(|c: char| ascii_lower(c)) == name,
{
    assert forall|i: int| 0 <= i < name.len() implies a.map_values(|c: char| ascii_lower(c))[i]
        == name[i] by {
        lemma_ascii_lower(name[i]);
        assert(ascii_lower(a[i]) == ascii_lower(name[i]));
    }
    assert(a.map_values(|c: char| ascii_lower(c)) =~= name);
}

/// Two texts are equal up to ASCII case: they have the same length, and at
/// each position the characters agree once both are ASCII-lowercased.
pub open spec fn eq_ignoring_ascii_case(a: Seq<char>, b: Seq<char>) -> bool {
    &&& a.len() == b.len()
    &&& forall|i: int| 0 <= i < a.len() ==> ascii_lower(#[trigger] a[i]) == ascii_lower(b[i])
}

/// The lowercase form of a text under the Unicode `Lowercase` mapping, as
/// `str::to_lowercase` computes it.
pub uninterp spec fn spec_to_lowercase(s: Seq<char>) -> Seq<char>;

/// A UTF-16 unit that opens a surrogate pair.
pub open spec fn is_high_surrogate(u: u16) -> bool {
    0xD800 <= u && u <= 0xDBFF
}

/// A UTF-16 unit that closes a surrogate pair.
pub open spec fn is_low_surrogate(u: u16) -> bool {
    0xDC00 <= u && u <= 0xDFFF
}

/// The scalar value that a surrogate pair encodes.
pub open spec fn pair_value(high: u16, low: u16) -> int {
    0x10000 + (high - 0xD800) * 0x400 + (low - 0xDC00)
}

/// The text that UTF-16 units decode to, each ill-formed unit replaced by
/// U+FFFD: a unit outside the surrogate range is its own character, a high
/// surrogate followed by a low one is the character of the pair, and any
/// other surrogate is replaced (the unit after an unpaired high surrogate is
/// decoded on its own).
pub open spec fn spec_utf16_lossy(units: Seq<u16>) -> Seq<char>
    decreases units.len(),
{
    if units.len() == 0 {
        seq![]
    } else if units.len() >= 2 && is_high_surrogate(units[0]) && is_low_surrogate(units[1]) {
        seq![pair_value(units[0], units[1]) as char] + spec_utf16_lossy(units.subrange(2, units.len() as int))
    } else if is_high_surrogate(units[0]) || is_low_surrogate(units[0]) {
        seq!['\u{FFFD}'] + spec_utf16_lossy(units.subrange(1, units.len() as int))
    } else {
        seq![units[0] as char] + spec_utf16_lossy(units.subrange(1, units.len() as int))
    }
}

/// The UTF-16 units of a text: one unit for a character below U+10000, a
/// surrogate pair for any other.
pub open spec fn spec_utf16_encode(chars: Seq<char>) -> Seq<u16>
    decreases chars.len(),
{
    if chars.len() == 0 {
        seq![]
    } else {
        let v = chars[0] as u32;
        let head: Seq<u16> = if v < 0x10000 {
            seq![v as u16]
        } else {
            seq![
                (0xD800 + (v - 0x10000) / 0x400) as u16,
                (0xDC00 + (v - 0x10000) % 0x400) as u16,
            ]
        };
        head + spec_utf16_encode(chars.subrange(1, chars.len() as int))
    }
}

/// The number of UTF-16 units that a text takes.
pub open spec fn spec_utf16_len(chars: Seq<char>) -> nat
    decreases chars.len(),
{
    if chars.len() == 0 {
        0
    } else {
        (if chars[0] as u32 >= 0x10000 {
            2nat
        } else {
            1nat
        }) + spec_utf16_len(chars.subrange(1, chars.len() as int))
    }
}

/// The text decoded from UTF-16 units takes as many units as were decoded:
/// a pair gives a character beyond U+FFFF, every other unit one below it.
pub proof fn lemma_utf16_lossy_len(units: Seq<u16>)
    ensures
        spec_utf16_len(spec_utf16_lossy(units)) == units.len(),
    decreases units.len(),
{
    if units.len() > 0 {
        let d = spec_utf16_lossy(units);
        if units.len() >= 2 && is_high_surrogate(units[0]) && is_low_surrogate(units[1]) {
            let rest = units.subrange(2, units.len() as int);
            lemma_utf16_lossy_len(rest);
            let v = pair_value(units[0], units[1]);
            assert(0x10000 <= v <= 0x10FFFF);
            assert((v as char) as u32 == v);
            assert(d.subrange(1, d.len() as int) =~= spec_utf16_lossy(rest));
        } else {
            let rest = units.subrange(1, units.len() as int);
            lemma_utf16_lossy_len(rest);
            assert(d.subrange(1, d.len() as int) =~= spec_utf16_lossy(rest));
            if !(is_high_surrogate(units[0]) || is_low_surrogate(units[0])) {
                assert((units[0] as char) as u32 == units[0]);
            }
        }
    }
}

/// Encoding a text to UTF-16 and decoding the units gives the text back, and
/// the encoding has the length that `spec_utf16_len` counts.
pub proof fn lemma_utf16_round_trip(chars: Seq<char>)
    ensures
        spec_utf16_lossy(spec_utf16_encode(chars)) == chars,
        spec_utf16_encode(chars).len() == spec_utf16_len(chars),
    decreases chars.len(),
{
    if chars.len() > 0 {
        let rest = chars.subrange(1, chars.len() as int);
        lemma_utf16_round_trip(rest);
        let c = chars[0];
        let v = c as u32;
        vstd::utf8::char_is_scalar(c);
        vstd::utf8::char_u32_cast(c, v);
        let e = spec_utf16_encode(chars);
        let er = spec_utf16_encode(rest);
        if v < 0x10000 {
            assert(e =~= seq![v as u16] + er);
            assert(!is_high_surrogate(v as u16) && !is_low_surrogate(v as u16));
            assert(e.subrange(1, e.len() as int) =~= er);
            assert(((v as u16) as char) == c);
        } else {
            let hi = (0xD800 + (v - 0x10000) / 0x400) as u16;
            let lo = (0xDC00 + (v - 0x10000) % 0x400) as u16;
            assert(e =~= seq![hi, lo] + er);
            assert(is_high_surrogate(hi) && is_low_surrogate(lo));
            assert(e.subrange(2, e.len() as int) =~= er);
            assert(pair_value(hi, lo) == v);
        }
        assert(spec_utf16_lossy(e) =~= seq![c] + rest);
        assert(chars =~= seq![c] + rest);
    }
}

/// Encoding a text that grows by one character appends that character's
/// units.
pub proof fn lemma_utf16_encode_push(chars: Seq<char>, c: char)
    ensures
        spec_utf16_encode(chars.push(c)) == spec_utf16_encode(chars) + spec_utf16_encode(seq![c]),
    decreases chars.len(),
{
    let p = chars.push(c);
    if chars.len() == 0 {
        assert(p =~= seq![c]);
    } else {
        let rest = chars.subrange(1, chars.len() as int);
        lemma_utf16_encode_push(rest, c);
        assert(p.subrange(1, p.len() as int) =~= rest.push(c));
        assert(spec_utf16_encode(p) =~= spec_utf16_encode(chars) + spec_utf16_encode(seq![c]));
    }
}

/// Returns the UTF-16 units of a text followed by a terminating zero unit,
/// as Win32 calls take a text.
pub fn utf16_units_with_nul(s: &str) -> (units: Vec<u16>)
    ensures
        units@ == spec_utf16_encode(s@).push(0u16),
{
    let n = s.unicode_len();
    let mut units: Vec<u16> = Vec::new();
    let mut i: usize = 0;
    while i < n
        invariant
            n == s@.len(),
            i <= n,
            units@ == spec_utf16_encode(s@.subrange(0, i as int)),
        decreases n - i,
    {
        let c = s.get_char(i);
        let v = c as u32;
        proof {
            lemma_utf16_encode_push(s@.subrange(0, i as int), c);
            assert(s@.subrange(0, i as int).push(c) =~= s@.subrange(0, i + 1));
            vstd::utf8::char_is_scalar(c);
            let one = seq![c];
            assert(one.subrange(1, 1) =~= Seq::<char>::empty());
            assert(spec_utf16_encode(Seq::<char>::empty()) =~= Seq::<u16>::empty());
        }
        let ghost prev = units@;
        if v < 0x10000 {
            units.push(v as u16);
            assert(spec_utf16_encode(seq![c]) =~= seq![v as u16]);
        } else {
            let w = v - 0x10000;
            units.push((0xD800 + w / 0x400) as u16);
            units.push((0xDC00 + w % 0x400) as u16);
            assert(spec_utf16_encode(seq![c]) =~= seq![
                (0xD800 + (v - 0x10000) / 0x400) as u16,
                (0xDC00 + (v - 0x10000) % 0x400) as u16,
            ]);
        }
        assert(units@ =~= prev + spec_utf16_encode(seq![c]));
        i = i + 1;
    }
    assert(s@.subrange(0, n as int) =~= s@);
    units.push(0);
    units
}

/// Calls `str::to_lowercase`. The result is what `spec_to_lowercase` names;
/// for a text of ASCII characters only, it is in addition the text with each
/// letter `A` to `Z` replaced by its lowercase letter, as the documentation of
/// `to_lowercase` and of the Unicode mapping on ASCII give it. Nothing is
/// stated of the mapping on other characters.
#[verifier::external_body]
pub(crate) fn to_lowercase(s: &str) -> (r: String)
    ensures
        r@ == spec_to_lowercase(s@),
        vstd::utf8::is_ascii_chars(s@) ==> r@ == s@.map_values(|c: char| ascii_lower(c)),
{
    s.to_lowercase()
}

/// Calls `String::from_utf16_lossy` on the first `len` units of `units`;
/// its documentation describes the result as the decoding of the units with
/// each ill-formed unit replaced by U+FFFD, which `spec_utf16_lossy` states.
#[verifier::external_body]
pub(crate) fn utf16_lossy_prefix(units: &[u16], len: usize) -> (r: String)
    requires
        len <= units@.len(),
    ensures
        r@ == spec_utf16_lossy(units@.take(len as int)),
{
    String::from_utf16_lossy(&units[..len])
}

/// The ASCII lowercase of a character, by its code.
fn ascii_lower_code(c: char) -> (r: u32)
    ensures
        r == ascii_lower(c) as u32,
        65 <= c as u32 && c as u32 <= 90 ==> r == c as u32 + 32,
        !(65 <= c as u32 && c as u32 <= 90) ==> r == c as u32,
{
    let x = c as u32;
    if 65 <= x && x <= 90 {
        x + 32
    } else {
        x
    }
}

/// Tells whether two texts are equal up to ASCII case, as
/// `str::eq_ignore_ascii_case` does.
pub fn eq_ignore_ascii_case(a: &str, b: &str) -> (r: bool)
    ensures
        r == eq_ignoring_ascii_case(a@, b@),
{
    let n = a.unicode_len();
    if n != b.unicode_len() {
        return false;
    }
    let mut i: usize = 0;
    while i < n
        invariant
            n == a@.len(),
            n == b@.len(),
            i <= n,
            forall|j: int| 0 <= j < i ==> ascii_lower(#[trigger] a@[j]) == ascii_lower(b@[j]),
        decreases n - i,
    {
        let x = ascii_lower_code(a.get_char(i));
        let y = ascii_lower_code(b.get_char(i));
        if x != y {
            return false;
        }
        proof {
            let ca = ascii_lower(a@[i as int]);
            let cb = ascii_lower(b@[i as int]);
            vstd::utf8::char_u32_cast(ca, x);
            vstd::utf8::char_u32_cast(cb, y);
        }
        i = i + 1;
    }
    true
}

/// Tells whether two texts are equal, character by character.
pub fn same_text(a: &str, b: &str) -> (r: bool)
    ensures
        r == (a@ == b@),
{
    let n = a.unicode_len();
    if n != b.unicode_len() {
        return false;
    }
    let mut i: usize = 0;
    while i < n
        invariant
            n == a@.len(),
            n == b@.len(),
            i <= n,
            forall|j: int| 0 <= j < i ==> a@[j] == b@[j],
        decreases n - i,
    {
        if a.get_char(i) != b.get_char(i) {
            return false;
        }
        i = i + 1;
    }
    assert(a@ =~= b@);
    true
}

} // verus!
