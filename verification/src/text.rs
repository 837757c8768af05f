//! Character-level text operations used by symbol handling and by the
//! canonical payload builder.
use vstd::prelude::*;

verus! {

/// Relies on `String::push`: appends the given character to the end of
/// the string.
pub assume_specification[ String::push ](s: &mut String, ch: char)
    ensures
        final(s)@ == old(s)@.push(ch),
;

/// An ASCII lowercase letter mapped to its uppercase form; any other
/// character unchanged.
pub open spec fn upper_char(c: char) -> char {
    if 'a' <= c && c <= 'z' {
        (c as int - 32) as char
    } else {
        c
    }
}

/// An ASCII uppercase letter mapped to its lowercase form; any other
/// character unchanged.
pub open spec fn lower_char(c: char) -> char {
    if 'A' <= c && c <= 'Z' {
        (c as int + 32) as char
    } else {
        c
    }
}

/// `s` with every ASCII lowercase letter raised to uppercase.
pub open spec fn to_upper(s: Seq<char>) -> Seq<char> {
    s.map_values(|c: char| upper_char(c))
}

/// `s` with every ASCII uppercase letter dropped to lowercase.
pub open spec fn to_lower(s: Seq<char>) -> Seq<char> {
    s.map_values(|c: char| lower_char(c))
}

fn upper_char_x(c: char) -> (r: char)
    ensures
        r == upper_char(c),
{
    let u = c as u32;
    if 97 <= u && u <= 122 {
        ((u - 32) as u8) as char
    } else {
        c
    }
}

fn lower_char_x(c: char) -> (r: char)
    ensures
        r == lower_char(c),
{
    let u = c as u32;
    if 65 <= u && u <= 90 {
        ((u + 32) as u8) as char
    } else {
        c
    }
}

/// Uppercases the ASCII letters of `s`, leaving every other character
/// alone.
pub fn to_upper_x(s: &str) -> (r: String)
    ensures
        r@ == to_upper(s@),
{
    let len = s.unicode_len();
    let mut out = String::new();
    let mut i: usize = 0;
    while i < len
        invariant
            i <= len,
            len == s@.len(),
            out@ =~= to_upper(s@.take(i as int)),
        decreases len - i,
    {
        let c = s.get_char(i);
        out.push(upper_char_x(c));
        i += 1;
        assert(out@ =~= to_upper(s@.take(i as int)));
    }
    assert(s@.take(len as int) =~= s@);
    out
}

/// The canonical symbol drawn from an exchange instrument name: dashes
/// removed, ASCII letters lowercased.
pub open spec fn canon_sym(s: Seq<char>) -> Seq<char>
    decreases s.len(),
{
    if s.len() == 0 {
        Seq::empty()
    } else {
        let rest = canon_sym(s.drop_last());
        if s.last() == '-' {
            rest
        } else {
            rest.push(lower_char(s.last()))
        }
    }
}

/// Removes dashes from `s` and lowercases its ASCII letters.
pub fn canon_sym_x(s: &str) -> (r: String)
    ensures
        r@ == canon_sym(s@),
{
    let len = s.unicode_len();
    let mut out = String::new();
    let mut i: usize = 0;
    while i < len
        invariant
            i <= len,
            len == s@.len(),
            out@ == canon_sym(s@.take(i as int)),
        decreases len - i,
    {
        let c = s.get_char(i);
        let ghost pre = s@.take(i as int);
        let ghost cur = s@.take(i as int + 1);
        assert(cur.drop_last() =~= pre);
        if !(c == '-') {
            out.push(lower_char_x(c));
        }
        i += 1;
    }
    assert(s@.take(len as int) =~= s@);
    out
}

/// Compares two string slices character by character.
pub fn str_eq(a: &str, b: &str) -> (r: bool)
    ensures
        r == (a@ == b@),
{
    let alen = a.unicode_len();
    let blen = b.unicode_len();
    if alen != blen {
        return false;
    }
    let mut i: usize = 0;
    while i < alen
        invariant
            i <= alen,
            alen == a@.len(),
            alen == b@.len(),
            forall|j: int| 0 <= j < i ==> a@[j] == b@[j],
        decreases alen - i,
    {
        if a.get_char(i) != b.get_char(i) {
            return false;
        }
        i += 1;
    }
    proof {
        assert(a@ =~= b@);
    }
    true
}

/// `true` iff `s` ends with `suffix`.
pub open spec fn has_suffix(s: Seq<char>, suffix: Seq<char>) -> bool {
    s.len() >= suffix.len() && s.skip(s.len() - suffix.len()) == suffix
}

/// Reports whether `s` ends with `suffix`.
pub fn has_suffix_x(s: &str, suffix: &str) -> (r: bool)
    ensures
        r == has_suffix(s@, suffix@),
{
    let slen = s.unicode_len();
    let xlen = suffix.unicode_len();
    if slen < xlen {
        return false;
    }
    let base = slen - xlen;
    let mut i: usize = 0;
    while i < xlen
        invariant
            i <= xlen,
            slen == s@.len(),
            xlen == suffix@.len(),
            base == slen - xlen,
            forall|j: int| 0 <= j < i ==> s@[base + j] == suffix@[j],
        decreases xlen - i,
    {
        if s.get_char(base + i) != suffix.get_char(i) {
            assert(s@.skip(base as int)[i as int] != suffix@[i as int]);
            return false;
        }
        i += 1;
    }
    proof {
        assert(s@.skip(base as int) =~= suffix@);
    }
    true
}

/// Takes the first `k` characters of `s`.
pub fn take_prefix(s: &str, k: usize) -> (r: String)
    requires
        k <= s@.len(),
    ensures
        r@ == s@.take(k as int),
{
    let mut out = String::new();
    let mut i: usize = 0;
    while i < k
        invariant
            i <= k,
            k <= s@.len(),
            out@ =~= s@.take(i as int),
        decreases k - i,
    {
        out.push(s.get_char(i));
        i += 1;
        assert(out@ =~= s@.take(i as int));
    }
    out
}

/// The position of the first `@` in `s`, or the length of `s` when
/// there is none.
pub open spec fn first_at(s: Seq<char>) -> int
    decreases s.len(),
{
    if s.len() == 0 {
        0
    } else if s[0] == '@' {
        0
    } else {
        1 + first_at(s.skip(1))
    }
}

proof fn lemma_first_at(s: Seq<char>, k: int)
    requires
        0 <= k <= s.len(),
        forall|j: int| 0 <= j < k ==> s[j] != '@',
        k < s.len() ==> s[k] == '@',
        k == s.len() || s[k] == '@',
    ensures
        first_at(s) == k,
    decreases s.len(),
{
    if s.len() > 0 && s[0] != '@' {
        assert(k >= 1);
        lemma_first_at(s.skip(1), k - 1);
    }
}

/// The part of a combined stream name before the first `@`: the symbol
/// in lowercase.
pub open spec fn stream_prefix(s: Seq<char>) -> Seq<char> {
    s.take(first_at(s))
}

/// Takes the part of `s` before its first `@`, or all of `s` when it
/// has none.
pub fn stream_prefix_x(s: &str) -> (r: String)
    ensures
        r@ == stream_prefix(s@),
{
    let len = s.unicode_len();
    let mut out = String::new();
    let mut i: usize = 0;
    while i < len
        invariant
            i <= len,
            len == s@.len(),
            out@ =~= s@.take(i as int),
            forall|j: int| 0 <= j < i ==> s@[j] != '@',
        decreases len - i,
    {
        let c = s.get_char(i);
        if c == '@' {
            proof {
                lemma_first_at(s@, i as int);
            }
            return out;
        }
        out.push(c);
        i += 1;
    }
    proof {
        lemma_first_at(s@, len as int);
        assert(s@.take(len as int) =~= s@);
    }
    out
}

/// The escape of one character inside a JSON string literal: quote and
/// backslash get a backslash, control characters become `\u00XX`, and
/// everything else stands as itself.
pub open spec fn esc_char(c: char) -> Seq<char> {
    if c == '"' {
        seq!['\\', '"']
    } else if c == '\\' {
        seq!['\\', '\\']
    } else if (c as int) < 32 {
        seq!['\\', 'u', '0', '0', hex_char((c as int) / 16), hex_char((c as int) % 16)]
    } else {
        seq![c]
    }
}

/// The lowercase hexadecimal digit for a value below sixteen.
pub open spec fn hex_char(d: int) -> char {
    if d < 10 {
        crate::num::digit_char(d)
    } else if d == 10 { 'a' }
    else if d == 11 { 'b' }
    else if d == 12 { 'c' }
    else if d == 13 { 'd' }
    else if d == 14 { 'e' }
    else { 'f' }
}

/// The body of a JSON string literal holding exactly the characters of
/// `s`.
pub open spec fn esc(s: Seq<char>) -> Seq<char>
    decreases s.len(),
{
    if s.len() == 0 {
        Seq::empty()
    } else {
        esc(s.drop_last()) + esc_char(s.last())
    }
}

/// A JSON string body written by `esc` holds no raw control
/// character: every character below the space survives only inside a
/// `\u` escape.
pub proof fn lemma_esc_no_control(s: Seq<char>)
    ensures
        forall|i: int| 0 <= i < esc(s).len() ==> (#[trigger] esc(s)[i]) as int >= 32,
    decreases s.len(),
{
    if s.len() > 0 {
        lemma_esc_no_control(s.drop_last());
        let a = esc(s.drop_last());
        let b = esc_char(s.last());
        assert(forall|i: int| 0 <= i < b.len() ==> (#[trigger] b[i]) as int >= 32);
        assert forall|i: int| 0 <= i < esc(s).len()
            implies (#[trigger] esc(s)[i]) as int >= 32 by {
            if i < a.len() {
                assert(esc(s)[i] == a[i]);
            } else {
                assert(esc(s)[i] == b[i - a.len()]);
            }
        }
    }
}

fn hex_char_x(d: u32) -> (r: char)
    requires
        d < 16,
    ensures
        r == hex_char(d as int),
{
    match d {
        0 => '0',
        1 => '1',
        2 => '2',
        3 => '3',
        4 => '4',
        5 => '5',
        6 => '6',
        7 => '7',
        8 => '8',
        9 => '9',
        10 => 'a',
        11 => 'b',
        12 => 'c',
        13 => 'd',
        14 => 'e',
        _ => 'f',
    }
}

/// Escapes `s` for inclusion between the quotes of a JSON string.
pub fn esc_x(s: &str) -> (r: String)
    ensures
        r@ == esc(s@),
{
    let len = s.unicode_len();
    let mut out = String::new();
    let mut i: usize = 0;
    while i < len
        invariant
            i <= len,
            len == s@.len(),
            out@ == esc(s@.take(i as int)),
        decreases len - i,
    {
        let c = s.get_char(i);
        let ghost pre = s@.take(i as int);
        let ghost cur = s@.take(i as int + 1);
        assert(cur.drop_last() =~= pre);
        let u = c as u32;
        if c == '"' {
            out.push('\\');
            out.push('"');
        } else if c == '\\' {
            out.push('\\');
            out.push('\\');
        } else if u < 32 {
            out.push('\\');
            out.push('u');
            out.push('0');
            out.push('0');
            out.push(hex_char_x(u / 16));
            out.push(hex_char_x(u % 16));
        } else {
            out.push(c);
        }
        assert(out@ =~= esc(pre) + esc_char(s@[i as int]));
        i += 1;
    }
    assert(s@.take(len as int) =~= s@);
    out
}

} // verus!
