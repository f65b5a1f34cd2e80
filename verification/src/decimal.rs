//! Decimal rendering and parsing: the digits of an id inside a composed
//! deep link, and the numeric check applied to the ticketing service's
//! reply.

use vstd::prelude::*;

verus! {

/// The character of one decimal digit.
pub open spec fn spec_digit_char(d: nat) -> char {
    if d == 0 {
        '0'
    } else if d == 1 {
        '1'
    } else if d == 2 {
        '2'
    } else if d == 3 {
        '3'
    } else if d == 4 {
        '4'
    } else if d == 5 {
        '5'
    } else if d == 6 {
        '6'
    } else if d == 7 {
        '7'
    } else if d == 8 {
        '8'
    } else {
        '9'
    }
}

/// The decimal digits of a non-negative number, most significant first,
/// without sign or padding.
pub open spec fn spec_decimal_digits(n: nat) -> Seq<char>
    decreases n,
{
    if n < 10 {
        seq![spec_digit_char(n)]
    } else {
        spec_decimal_digits(n / 10) + seq![spec_digit_char(n % 10)]
    }
}

/// The decimal rendering of an integer: a `'-'` before the magnitude's
/// digits when it is negative.
pub open spec fn spec_decimal_int(n: int) -> Seq<char> {
    if n < 0 {
        seq!['-'] + spec_decimal_digits((-n) as nat)
    } else {
        spec_decimal_digits(n as nat)
    }
}

/// The one-character string of one decimal digit.
fn digit_str(d: u64) -> (res: &'static str)
    requires
        d < 10,
    ensures
        res@ == seq![spec_digit_char(d as nat)],
{
    proof {
        reveal_strlit("0");
        reveal_strlit("1");
        reveal_strlit("2");
        reveal_strlit("3");
        reveal_strlit("4");
        reveal_strlit("5");
        reveal_strlit("6");
        reveal_strlit("7");
        reveal_strlit("8");
        reveal_strlit("9");
        assert("0"@ =~= seq!['0']);
        assert("1"@ =~= seq!['1']);
        assert("2"@ =~= seq!['2']);
        assert("3"@ =~= seq!['3']);
        assert("4"@ =~= seq!['4']);
        assert("5"@ =~= seq!['5']);
        assert("6"@ =~= seq!['6']);
        assert("7"@ =~= seq!['7']);
        assert("8"@ =~= seq!['8']);
        assert("9"@ =~= seq!['9']);
    }
    if d == 0 {
        "0"
    } else if d == 1 {
        "1"
    } else if d == 2 {
        "2"
    } else if d == 3 {
        "3"
    } else if d == 4 {
        "4"
    } else if d == 5 {
        "5"
    } else if d == 6 {
        "6"
    } else if d == 7 {
        "7"
    } else if d == 8 {
        "8"
    } else {
        "9"
    }
}

/// Appends the decimal digits of `n` to `out`.
fn push_decimal_u64(out: &mut String, n: u64)
    ensures
        final(out)@ == old(out)@ + spec_decimal_digits(n as nat),
    decreases n,
{
    if n < 10 {
        out.append(digit_str(n));
    } else {
        push_decimal_u64(out, n / 10);
        out.append(digit_str(n % 10));
        proof {
            assert(old(out)@ + (spec_decimal_digits(n as nat / 10) + seq![
                spec_digit_char(n as nat % 10),
            ]) =~= (old(out)@ + spec_decimal_digits(n as nat / 10)) + seq![
                spec_digit_char(n as nat % 10),
            ]);
        }
    }
}

/// The decimal rendering of an id, sign included.
pub fn i32_decimal(n: i32) -> (res: String)
    ensures
        res@ == spec_decimal_int(n as int),
{
    let mut out = String::new();
    if n < 0 {
        proof {
            reveal_strlit("-");
            assert("-"@ =~= seq!['-']);
        }
        out.append("-");
        let wide: i64 = n as i64;
        let magnitude: u64 = (-wide) as u64;
        push_decimal_u64(&mut out, magnitude);
        proof {
            assert(Seq::<char>::empty() + seq!['-'] + spec_decimal_digits(magnitude as nat)
                =~= seq!['-'] + spec_decimal_digits((-(n as int)) as nat));
        }
    } else {
        push_decimal_u64(&mut out, n as u64);
        proof {
            assert(Seq::<char>::empty() + spec_decimal_digits(n as nat) =~= spec_decimal_digits(
                (n as int) as nat,
            ));
        }
    }
    out
}

/// Whether a character is a decimal digit.
pub open spec fn spec_is_digit(c: char) -> bool {
    48 <= c as int <= 57
}

/// The value of one digit character.
pub open spec fn spec_digit_val(c: char) -> nat {
    (c as int - 48) as nat
}

/// Whether every character of `s` is a decimal digit.
pub open spec fn spec_all_digits(s: Seq<char>) -> bool {
    forall|i: int| 0 <= i < s.len() ==> spec_is_digit(#[trigger] s[i])
}

/// The number a sequence of digit characters denotes.
pub open spec fn spec_digits_val(s: Seq<char>) -> nat
    decreases s.len(),
{
    if s.len() == 0 {
        0
    } else {
        spec_digits_val(s.drop_last()) * 10 + spec_digit_val(s.last())
    }
}

/// What `str::parse::<i32>` accepts and returns: an optional single
/// `'+'` or `'-'`, then at least one digit and nothing else, denoting a
/// value that fits in an `i32`.
pub open spec fn spec_parse_i32(s: Seq<char>) -> Option<int> {
    let negative = s.len() > 0 && s[0] == '-';
    let body = if s.len() > 0 && (s[0] == '+' || s[0] == '-') {
        s.drop_first()
    } else {
        s
    };
    if body.len() > 0 && spec_all_digits(body) {
        let value = if negative {
            -(spec_digits_val(body) as int)
        } else {
            spec_digits_val(body) as int
        };
        if i32::MIN <= value <= i32::MAX {
            Some(value)
        } else {
            None
        }
    } else {
        None
    }
}

/// A digit prefix never denotes more than the whole digit string.
proof fn lemma_digits_val_prefix(s: Seq<char>, k: int)
    requires
        0 <= k <= s.len(),
    ensures
        spec_digits_val(s.subrange(0, k)) <= spec_digits_val(s),
    decreases s.len(),
{
    if k == s.len() {
        assert(s.subrange(0, k) =~= s);
    } else {
        let shorter = s.drop_last();
        lemma_digits_val_prefix(shorter, k);
        assert(s.subrange(0, k) =~= shorter.subrange(0, k));
        assert(spec_digits_val(shorter) * 10 >= spec_digits_val(shorter));
    }
}

/// Parses a decimal integer exactly as `str::parse::<i32>` would.
pub fn parse_i32(s: &str) -> (res: Option<i32>)
    ensures
        match res {
            Some(v) => spec_parse_i32(s@) == Some(v as int),
            None => spec_parse_i32(s@) is None,
        },
{
    let n = s.unicode_len();
    if n == 0 {
        return None;
    }
    let first = s.get_char(0);
    let negative = first == '-';
    let start: usize = if first == '-' || first == '+' {
        1
    } else {
        0
    };
    if n == start {
        return None;
    }
    let ghost body = s@.subrange(start as int, n as int);
    proof {
        assert(body =~= if s@.len() > 0 && (s@[0] == '+' || s@[0] == '-') {
            s@.drop_first()
        } else {
            s@
        });
    }
    let mut acc: u64 = 0;
    let mut i: usize = start;
    while i < n
        invariant
            start <= i <= n,
            n == s@.len(),
            s@.len() > 0,
            start < n,
            start == 0 || start == 1,
            start == 1 <==> (s@[0] == '+' || s@[0] == '-'),
            negative <==> s@[0] == '-',
            body == s@.subrange(start as int, n as int),
            spec_all_digits(s@.subrange(start as int, i as int)),
            acc == spec_digits_val(s@.subrange(start as int, i as int)),
            acc <= 0x8000_0000u64,
        decreases n - i,
    {
        let c = s.get_char(i);
        let code = c as u32;
        if code < 48 || code > 57 {
            proof {
                assert(body[i - start as int] == s@[i as int]);
                assert(!spec_all_digits(body));
            }
            return None;
        }
        let d = (code - 48) as u64;
        acc = acc * 10 + d;
        proof {
            let prefix = s@.subrange(start as int, i as int + 1);
            assert(prefix.drop_last() =~= s@.subrange(start as int, i as int));
            assert(prefix.last() == s@[i as int]);
            assert(spec_digits_val(prefix) == acc);
            assert(forall|j: int|
                0 <= j < prefix.len() ==> spec_is_digit(#[trigger] prefix[j]));
        }
        if acc > 0x8000_0000u64 {
            proof {
                assert(body == if s@.len() > 0 && (s@[0] == '+' || s@[0] == '-') {
                    s@.drop_first()
                } else {
                    s@
                });
                let prefix = s@.subrange(start as int, i as int + 1);
                let k = i as int + 1 - (start as int);
                assert(prefix =~= body.subrange(0, k));
                lemma_digits_val_prefix(body, k);
                assert(spec_digits_val(body) >= acc > 0x8000_0000);
            }
            return None;
        }
        i += 1;
    }
    proof {
        assert(s@.subrange(start as int, n as int) =~= body);
    }
    if negative {
        let value: i64 = -(acc as i64);
        proof {
            assert(i32::MIN <= value <= i32::MAX);
        }
        Some(value as i32)
    } else {
        if acc > 0x7FFF_FFFFu64 {
            return None;
        }
        Some(acc as i32)
    }
}

} // verus!
