//! Small string utilities with exact specifications.

use vstd::prelude::*;
use vstd::string::*;

verus! {

broadcast use vstd::utf8::group_utf8_lib;

/// Compares two strings by their contents.
pub fn str_eq(a: &str, b: &str) -> (r: bool)
    ensures
        r == (a@ == b@),
{
    let x = a.as_bytes();
    let y = b.as_bytes();
    if x.len() != y.len() {
        proof {
            if a@ == b@ {
                assert(a.spec_bytes() == b.spec_bytes());
            }
        }
        return false;
    }
    let n = x.len();
    let mut i: usize = 0;
    while i < n
        invariant
            n == x@.len(),
            n == y@.len(),
            i <= n,
            x@ == a.spec_bytes(),
            y@ == b.spec_bytes(),
            forall|j: int| 0 <= j < i ==> x@[j] == y@[j],
        decreases n - i,
    {
        if x[i] != y[i] {
            proof {
                if a@ == b@ {
                    assert(x@[i as int] == y@[i as int]);
                }
            }
            return false;
        }
        i = i + 1;
    }
    proof {
        assert(x@ =~= y@);
        vstd::utf8::encode_utf8_decode_utf8(a@);
        vstd::utf8::encode_utf8_decode_utf8(b@);
    }
    true
}

/// The character of a decimal digit.
pub open spec fn digit_char(d: nat) -> char {
    (48 + d) as char
}

/// The decimal digits of a natural number, most significant first, without
/// leading zeros.
pub open spec fn nat_digits(n: nat) -> Seq<char>
    decreases n,
{
    if n < 10 {
        seq![digit_char(n)]
    } else {
        nat_digits(n / 10).push(digit_char(n % 10))
    }
}

/// How Rust prints an integer: decimal digits, preceded by `-` when negative.
pub open spec fn int_to_decimal(x: int) -> Seq<char> {
    if x < 0 {
        seq!['-'] + nat_digits((-x) as nat)
    } else {
        nat_digits(x as nat)
    }
}

/// The one-character string of a digit.
fn digit_str(d: u8) -> (r: &'static str)
    requires
        d < 10,
    ensures
        r@ == seq![digit_char(d as nat)],
{
    proof {
        reveal_strlit("0");
        reveal_strlit("1");
        reveal_strlit("2");
        reveal_strlit("3");
        reveal_strlit("4");
        reveal_strlit("5");
        reveal_strlit("6");
        reveal_strlit("7");
        reveal_strlit("8");
        reveal_strlit("9");
    }
    match d {
        0 => "0",
        1 => "1",
        2 => "2",
        3 => "3",
        4 => "4",
        5 => "5",
        6 => "6",
        7 => "7",
        8 => "8",
        9 => "9",
        _ => "9",
    }
}

/// Digits stored least significant first, printed most significant first.
pub open spec fn rev_digits(r: Seq<u8>) -> Seq<char>
    decreases r.len(),
{
    if r.len() == 0 {
        Seq::empty()
    } else {
        seq![digit_char(r.last() as nat)] + rev_digits(r.drop_last())
    }
}

proof fn lemma_rev_digits_index(r: Seq<u8>)
    ensures
        rev_digits(r).len() == r.len(),
        forall|j: int| 0 <= j < r.len() ==> #[trigger] rev_digits(r)[j] == digit_char(r[r.len() - 1 - j] as nat),
    decreases r.len(),
{
    if r.len() > 0 {
        lemma_rev_digits_index(r.drop_last());
        assert forall|j: int| 0 <= j < r.len() implies #[trigger] rev_digits(r)[j] == digit_char(r[r.len() - 1 - j] as nat) by {
            if j > 0 {
                assert(rev_digits(r)[j] == rev_digits(r.drop_last())[j - 1]);
            }
        }
    }
}

/// The decimal text of `x`, as `format!("{x}")` gives it.
pub fn format_i32(x: i32) -> (r: String)
    ensures
        r@ == int_to_decimal(x as int),
{
    format_i128(x as i128)
}

/// The decimal text of `x`, as `format!("{x}")` gives it.
pub fn format_i128(x: i128) -> (r: String)
    ensures
        r@ == int_to_decimal(x as int),
{
    let neg = x < 0;
    let mag: u128 = if neg {
        ((-(x + 1)) as u128) + 1
    } else {
        x as u128
    };
    let mut m: u128 = mag;
    // digits, least significant first
    let mut rev: Vec<u8> = Vec::new();
    loop
        invariant_except_break
            m <= mag,
            nat_digits(mag as nat) == nat_digits(m as nat) + rev_digits(rev@),
            forall|j: int| 0 <= j < rev@.len() ==> rev@[j] < 10,
        ensures
            nat_digits(mag as nat) == rev_digits(rev@),
            forall|j: int| 0 <= j < rev@.len() ==> rev@[j] < 10,
        decreases m,
    {
        let d = (m % 10) as u8;
        let ghost old_rev = rev@;
        rev.push(d);
        proof {
            assert(rev@.drop_last() =~= old_rev);
            assert(rev_digits(rev@) == seq![digit_char(d as nat)] + rev_digits(old_rev));
        }
        if m < 10 {
            proof {
                assert(nat_digits(m as nat) == seq![digit_char(d as nat)]);
                assert(nat_digits(mag as nat) =~= rev_digits(rev@));
            }
            break;
        }
        proof {
            assert(nat_digits(m as nat) == nat_digits((m / 10) as nat).push(digit_char(d as nat)));
            assert(nat_digits(mag as nat) =~= nat_digits((m / 10) as nat) + rev_digits(rev@));
        }
        m = m / 10;
    }
    let mut out = String::new();
    if neg {
        out.append("-");
    }
    let ghost prefix = out@;
    proof {
        lemma_rev_digits_index(rev@);
        reveal_strlit("-");
    }
    let mut i = rev.len();
    while i > 0
        invariant
            i <= rev@.len(),
            forall|j: int| 0 <= j < rev@.len() ==> rev@[j] < 10,
            rev_digits(rev@).len() == rev@.len(),
            forall|j: int| 0 <= j < rev@.len() ==> #[trigger] rev_digits(rev@)[j] == digit_char(rev@[rev@.len() - 1 - j] as nat),
            out@ == prefix + rev_digits(rev@).subrange(0, rev@.len() - i),
        decreases i,
    {
        i = i - 1;
        let ghost before = out@;
        out.append(digit_str(rev[i]));
        proof {
            assert(rev_digits(rev@).subrange(0, rev@.len() - i) =~= rev_digits(rev@).subrange(
                0,
                rev@.len() - i - 1,
            ).push(digit_char(rev@[i as int] as nat)));
            assert(out@ =~= prefix + rev_digits(rev@).subrange(0, rev@.len() - i));
        }
    }
    assert(rev_digits(rev@).subrange(0, rev@.len() as int) =~= rev_digits(rev@));
    proof {
        if neg {
            assert(prefix == seq!['-']);
        } else {
            assert(prefix =~= Seq::<char>::empty());
        }
    }
    out
}

/// The characters of a string.
pub fn str_chars(s: &str) -> (r: Vec<char>)
    ensures
        r@ == s@,
{
    let n = s.unicode_len();
    let mut out: Vec<char> = Vec::new();
    let mut i: usize = 0;
    while i < n
        invariant
            n == s@.len(),
            i <= n,
            out@ == s@.take(i as int),
        decreases n - i,
    {
        out.push(s.get_char(i));
        i = i + 1;
        proof {
            assert(out@ =~= s@.take(i as int));
        }
    }
    assert(s@.take(n as int) =~= s@);
    out
}

pub open spec fn is_digit(c: char) -> bool {
    '0' <= c && c <= '9'
}

pub open spec fn all_digits(s: Seq<char>) -> bool {
    forall|i: int| 0 <= i < s.len() ==> is_digit(#[trigger] s[i])
}

/// The number written by a string of decimal digits.
pub open spec fn digits_value(s: Seq<char>) -> int
    decreases s.len(),
{
    if s.len() == 0 {
        0
    } else {
        digits_value(s.drop_last()) * 10 + (s.last() as int - 48)
    }
}

/// How Rust reads an `i32` from text: an optional `+` or `-`, then one or
/// more decimal digits, the value within range.
pub open spec fn parse_i32_spec(s: Seq<char>) -> Option<i32> {
    let signed = s.len() > 0 && (s[0] == '-' || s[0] == '+');
    let neg = s.len() > 0 && s[0] == '-';
    let body = if signed {
        s.skip(1)
    } else {
        s
    };
    if body.len() == 0 || !all_digits(body) {
        None
    } else {
        let v = if neg {
            -digits_value(body)
        } else {
            digits_value(body)
        };
        if i32::MIN <= v <= i32::MAX {
            Some(v as i32)
        } else {
            None
        }
    }
}

proof fn lemma_digits_value_grows(s: Seq<char>, i: int)
    requires
        all_digits(s),
        0 <= i <= s.len(),
    ensures
        0 <= digits_value(s.take(i)) <= digits_value(s),
    decreases s.len(),
{
    if i < s.len() {
        assert(all_digits(s.drop_last()));
        lemma_digits_value_grows(s.drop_last(), i);
        assert(s.drop_last().take(i) =~= s.take(i));
        lemma_digits_value_grows(s.drop_last(), s.len() - 1);
        assert(s.drop_last().take(s.len() - 1) =~= s.drop_last());
        assert(is_digit(s[s.len() - 1]));
    } else {
        assert(s.take(i) =~= s);
        if s.len() > 0 {
            assert(all_digits(s.drop_last()));
            lemma_digits_value_grows(s.drop_last(), s.len() - 1);
            assert(s.drop_last().take(s.len() - 1) =~= s.drop_last());
            assert(is_digit(s[s.len() - 1]));
        }
    }
}

/// Reads an `i32` as `str::parse::<i32>` does; `None` where it fails.
pub fn parse_i32(s: &str) -> (r: Option<i32>)
    ensures
        r == parse_i32_spec(s@),
{
    let cs = str_chars(s);
    parse_i32_chars(&cs)
}

/// Reads an `i32` from characters as `str::parse::<i32>` does.
pub fn parse_i32_chars(cs: &Vec<char>) -> (r: Option<i32>)
    ensures
        r == parse_i32_spec(cs@),
{
    let n = cs.len();
    let neg = n > 0 && cs[0] == '-';
    let signed = n > 0 && (cs[0] == '-' || cs[0] == '+');
    let start: usize = if signed {
        1
    } else {
        0
    };
    let ghost body = if signed {
        cs@.skip(1)
    } else {
        cs@
    };
    if start == n {
        return None;
    }
    let mut v: i64 = 0;
    let mut i: usize = start;
    while i < n
        invariant
            n == cs@.len(),
            start <= i <= n,
            start < n,
            signed == (cs@.len() > 0 && (cs@[0] == '-' || cs@[0] == '+')),
            neg == (cs@.len() > 0 && cs@[0] == '-'),
            start == (if signed { 1usize } else { 0usize }),
            body == (if signed { cs@.skip(1) } else { cs@ }),
            body == cs@.skip(start as int),
            all_digits(body.take(i - start)),
            v == digits_value(body.take(i - start)),
            0 <= v <= 2147483648,
        decreases n - i,
    {
        let c = cs[i];
        if !('0' <= c && c <= '9') {
            proof {
                assert(body[i - start] == c);
                assert(!all_digits(body));
            }
            return None;
        }
        let d = (c as u32 - 48) as i64;
        proof {
            assert(body.take(i - start + 1).drop_last() =~= body.take(i - start));
            assert(body[i - start] == c);
        }
        v = v * 10 + d;
        i = i + 1;
        proof {
            assert(all_digits(body.take(i - start)));
        }
        if v > 2147483648 {
            proof {
                if all_digits(body) {
                    lemma_digits_value_grows(body, i - start);
                }
            }
            return None;
        }
    }
    assert(body.take(n - start) =~= body);
    let value: i64 = if neg {
        -v
    } else {
        v
    };
    if value < -2147483648 || value > 2147483647 {
        None
    } else {
        Some(value as i32)
    }
}

proof fn lemma_nat_digits(n: nat)
    ensures
        nat_digits(n).len() > 0,
        all_digits(nat_digits(n)),
        digits_value(nat_digits(n)) == n,
    decreases n,
{
    let ds = nat_digits(n);
    if n < 10 {
        assert(ds.drop_last() =~= Seq::<char>::empty());
        assert(digit_char(n) as int == 48 + n);
        assert(is_digit(ds[0]));
        assert(digits_value(ds) == digits_value(ds.drop_last()) * 10 + (ds.last() as int - 48));
        assert(digits_value(ds.drop_last()) == 0);
    } else {
        lemma_nat_digits(n / 10);
        assert(ds.drop_last() =~= nat_digits(n / 10));
        assert(digit_char(n % 10) as int == 48 + n % 10);
        assert((n / 10) * 10 + n % 10 == n) by (nonlinear_arith);
        assert(ds.last() == digit_char(n % 10));
        assert(digits_value(ds) == digits_value(ds.drop_last()) * 10 + (ds.last() as int - 48));
        assert forall|i: int| 0 <= i < ds.len() implies is_digit(#[trigger] ds[i]) by {
            if i < ds.len() - 1 {
                assert(ds[i] == nat_digits(n / 10)[i]);
            }
        }
    }
}

/// Reading back the decimal text of an `i32` gives the number.
pub proof fn law_decimal_round_trip(x: i32)
    ensures
        parse_i32_spec(int_to_decimal(x as int)) == Some(x),
{
    let s = int_to_decimal(x as int);
    if x < 0 {
        let n = (-x) as nat;
        lemma_nat_digits(n);
        assert(s.skip(1) =~= nat_digits(n));
    } else {
        let n = x as nat;
        lemma_nat_digits(n);
        assert(is_digit(s[0]));
    }
}

/// The decimal text of an integer holds only digits and `-`.
pub proof fn lemma_decimal_chars(x: int)
    ensures
        forall|i: int|
            0 <= i < int_to_decimal(x).len() ==> is_digit(#[trigger] int_to_decimal(x)[i]) || int_to_decimal(x)[i]
                == '-',
{
    let s = int_to_decimal(x);
    if x < 0 {
        let n = (-x) as nat;
        lemma_nat_digits(n);
        assert forall|i: int| 0 <= i < s.len() implies is_digit(#[trigger] s[i]) || s[i] == '-' by {
            if i > 0 {
                assert(s[i] == nat_digits(n)[i - 1]);
            }
        }
    } else {
        lemma_nat_digits(x as nat);
    }
}

} // verus!
