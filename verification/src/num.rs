//! Decimal reading and printing of the sequence numbers and timestamps
//! that the exchange messages carry as text.
use vstd::prelude::*;

verus! {

/// `true` iff `c` is an ASCII decimal digit.
pub open spec fn is_digit(c: char) -> bool {
    '0' <= c && c <= '9'
}

/// The numeric value of a digit character.
pub open spec fn digit_val(c: char) -> int {
    c as int - '0' as int
}

/// `true` iff every character of `s` is a decimal digit.
pub open spec fn all_digits(s: Seq<char>) -> bool {
    forall|i: int| 0 <= i < s.len() ==> is_digit(#[trigger] s[i])
}

/// The value of a digit string read in base ten, most significant first.
pub open spec fn digits_val(s: Seq<char>) -> int
    decreases s.len(),
{
    if s.len() == 0 {
        0
    } else {
        digits_val(s.drop_last()) * 10 + digit_val(s.last())
    }
}

/// The digit character for a value below ten.
pub open spec fn digit_char(d: int) -> char {
    if d == 0 { '0' }
    else if d == 1 { '1' }
    else if d == 2 { '2' }
    else if d == 3 { '3' }
    else if d == 4 { '4' }
    else if d == 5 { '5' }
    else if d == 6 { '6' }
    else if d == 7 { '7' }
    else if d == 8 { '8' }
    else { '9' }
}

/// The canonical decimal text of a non-negative value: no sign, no
/// leading zero except for the value zero itself.
pub open spec fn dec_digits(n: int) -> Seq<char>
    decreases n,
{
    if n <= 0 {
        seq![digit_char(0)]
    } else if n < 10 {
        seq![digit_char(n)]
    } else {
        dec_digits(n / 10).push(digit_char(n % 10))
    }
}

/// The canonical decimal text of a signed value.
pub open spec fn dec_int(n: int) -> Seq<char> {
    if n < 0 {
        seq!['-'] + dec_digits(-n)
    } else {
        dec_digits(n)
    }
}

/// What `str::parse::<i64>` returns on `s`: the represented value when
/// `s` is an optional sign followed by one or more digits and the value
/// fits in an `i64`, and nothing otherwise.
pub open spec fn parse_i64_spec(s: Seq<char>) -> Option<int> {
    let (neg, body) = if s.len() > 0 && s[0] == '-' {
        (true, s.skip(1))
    } else if s.len() > 0 && s[0] == '+' {
        (false, s.skip(1))
    } else {
        (false, s)
    };
    if body.len() == 0 || !all_digits(body) {
        None
    } else {
        let v = if neg { -digits_val(body) } else { digits_val(body) };
        if i64::MIN <= v <= i64::MAX {
            Some(v)
        } else {
            None
        }
    }
}

/// The decimal text of a non-negative value is a well-formed JSON
/// number: nothing but digits, and a leading zero only for zero
/// itself.
pub proof fn lemma_dec_digits_wf(n: int)
    requires
        n >= 0,
    ensures
        all_digits(dec_digits(n)),
        dec_digits(n).len() > 0,
        n > 0 ==> dec_digits(n)[0] != '0',
    decreases n,
{
    if n >= 10 {
        lemma_dec_digits_wf(n / 10);
        assert(forall|i: int| 0 <= i < dec_digits(n).len() - 1
            ==> #[trigger] dec_digits(n)[i] == dec_digits(n / 10)[i]);
        assert(dec_digits(n).last() == digit_char(n % 10));
    }
}

/// A digit string's value never shrinks when a digit is appended.
proof fn lemma_digits_val_nonneg(s: Seq<char>)
    requires
        all_digits(s),
    ensures
        digits_val(s) >= 0,
    decreases s.len(),
{
    if s.len() > 0 {
        assert(all_digits(s.drop_last())) by {
            assert(forall|i: int|
                0 <= i < s.len() - 1 ==> is_digit(#[trigger] s.drop_last()[i]));
        }
        lemma_digits_val_nonneg(s.drop_last());
    }
}

fn digit_of(c: char) -> (r: Option<u32>)
    ensures
        r is Some <==> is_digit(c),
        r matches Some(d) ==> d == digit_val(c) && d <= 9,
{
    let u = c as u32;
    if 48 <= u && u <= 57 {
        Some(u - 48)
    } else {
        None
    }
}

/// Reads `s` as `str::parse::<i64>` does: an optional `+` or `-`
/// followed by decimal digits, rejected when empty, malformed or out of
/// the `i64` range.
pub fn parse_i64(s: &str) -> (r: Option<i64>)
    ensures
        r is Some <==> parse_i64_spec(s@) is Some,
        r matches Some(v) ==> parse_i64_spec(s@) == Some(v as int),
{
    let len = s.unicode_len();
    let ghost sv = s@;
    let mut start: usize = 0;
    let mut neg = false;
    if len > 0 {
        let c0 = s.get_char(0);
        if c0 == '-' {
            neg = true;
            start = 1;
        } else if c0 == '+' {
            start = 1;
        }
    }
    let ghost body = sv.skip(start as int);
    if start >= len {
        // sign alone, or empty input
        assert(body.len() == 0);
        return None;
    }
    // magnitude accumulated in a u64; 9223372036854775808 == -(i64::MIN)
    let mut acc: u64 = 0;
    let mut over = false;
    let mut i: usize = start;
    while i < len
        invariant
            sv == s@,
            if sv.len() > 0 && (sv[0] == '-' || sv[0] == '+') {
                start == 1
            } else {
                start == 0
            },
            start <= i <= len,
            len == sv.len(),
            body == sv.skip(start as int),
            all_digits(sv.subrange(start as int, i as int)),
            !over ==> acc == digits_val(sv.subrange(start as int, i as int))
                && acc <= 9223372036854775808u64,
            over ==> digits_val(sv.subrange(start as int, i as int)) > 9223372036854775808int,
        decreases len - i,
    {
        let c = s.get_char(i);
        let ghost pre = sv.subrange(start as int, i as int);
        let ghost cur = sv.subrange(start as int, i as int + 1);
        assert(cur.drop_last() =~= pre);
        assert(cur.last() == sv[i as int]);
        match digit_of(c) {
            None => {
                assert(!all_digits(body)) by {
                    assert(body[i - start] == sv[i as int]);
                    assert(!is_digit(body[i - start]));
                }
                proof {
                    if start == 0 {
                        assert(body =~= sv);
                    }
                }
                assert(parse_i64_spec(sv) is None);
                return None;
            },
            Some(d) => {
                proof {
                    lemma_digits_val_nonneg(pre);
                    assert(is_digit(cur.last()));
                    assert(all_digits(cur)) by {
                        assert(forall|j: int| 0 <= j < cur.len() - 1
                            ==> #[trigger] cur[j] == pre[j]);
                    }
                    assert(digits_val(cur) == digits_val(pre) * 10 + d);
                }
                if over {
                    assert(digits_val(cur) > 9223372036854775808int);
                } else if acc > 922337203685477580u64 {
                    over = true;
                    assert(digits_val(cur) == acc * 10 + d > 9223372036854775808int);
                } else {
                    acc = acc * 10 + (d as u64);
                    if acc > 9223372036854775808u64 {
                        over = true;
                    }
                }
            },
        }
        i += 1;
    }
    assert(sv.subrange(start as int, len as int) =~= body);
    proof {
        assert(sv.skip(0) =~= sv);
        lemma_digits_val_nonneg(body);
    }
    if over {
        return None;
    }
    assert(acc == digits_val(body));
    if neg {
        assert(sv[0] == '-');
        if acc == 9223372036854775808u64 {
            Some(i64::MIN)
        } else {
            Some(-(acc as i64))
        }
    } else {
        assert(!(sv.len() > 0 && sv[0] == '-'));
        if acc == 9223372036854775808u64 {
            None
        } else {
            Some(acc as i64)
        }
    }
}

fn digit_str(d: u64) -> (r: &'static str)
    requires
        d <= 9,
    ensures
        r@ == seq![digit_char(d as int)],
{
    proof {
        reveal_strlit("0");
        reveal_strlit("1");
        reveal_strlit("2");
        reveal_strlit("3");
        reveal_strlit("4");
        reveal_strlit("5");
        reveal_strlit("6");
        reveal_strlit("7");
        reveal_strlit("8");
        reveal_strlit("9");
    }
    let r = match d {
        0 => "0",
        1 => "1",
        2 => "2",
        3 => "3",
        4 => "4",
        5 => "5",
        6 => "6",
        7 => "7",
        8 => "8",
        _ => "9",
    };
    assert(r@ =~= seq![digit_char(d as int)]);
    r
}

fn u64_digits(n: u64) -> (r: String)
    ensures
        r@ == dec_digits(n as int),
    decreases n,
{
    if n < 10 {
        let mut s = String::new();
        s.append(digit_str(n));
        assert(s@ =~= dec_digits(n as int));
        s
    } else {
        let mut s = u64_digits(n / 10);
        s.append(digit_str(n % 10));
        assert(s@ =~= dec_digits(n as int));
        s
    }
}

/// Prints `n` in decimal, as `i64`'s `Display` does: a `-` sign for
/// negative values, then the digits with no leading zero.
pub fn i64_to_string(n: i64) -> (r: String)
    ensures
        r@ == dec_int(n as int),
{
    if n >= 0 {
        u64_digits(n as u64)
    } else {
        let mag: u64 = if n == i64::MIN {
            9223372036854775808u64
        } else {
            (-n) as u64
        };
        let mut s = String::new();
        proof {
            reveal_strlit("-");
        }
        s.append("-");
        let d = u64_digits(mag);
        s.append(d.as_str());
        assert(s@ =~= dec_int(n as int));
        s
    }
}

} // verus!
