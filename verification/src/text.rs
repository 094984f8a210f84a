//! Plain-text helpers: decimal rendering of unsigned integers, and
//! recognition of the numeric value tokens the chart renderer accepts.

use vstd::prelude::*;
use vstd::string::*;

verus! {

/// The ten ASCII decimal digit characters.
pub open spec fn is_ascii_digit(c: char) -> bool {
    c == '0' || c == '1' || c == '2' || c == '3' || c == '4' || c == '5' || c == '6' || c == '7'
        || c == '8' || c == '9'
}

/// The decimal digit character for `d`, defined for 0 through 9.
pub open spec fn digit_char(d: int) -> char {
    if d == 0 {
        '0'
    } else if d == 1 {
        '1'
    } else if d == 2 {
        '2'
    } else if d == 3 {
        '3'
    } else if d == 4 {
        '4'
    } else if d == 5 {
        '5'
    } else if d == 6 {
        '6'
    } else if d == 7 {
        '7'
    } else if d == 8 {
        '8'
    } else {
        '9'
    }
}

/// The decimal representation of `n`: most significant digit first, no
/// sign, no leading zeros (zero itself is written as one digit).
pub open spec fn dec_digits(n: nat) -> Seq<char>
    decreases n,
{
    if n < 10 {
        seq![digit_char(n as int)]
    } else {
        dec_digits(n / 10) + seq![digit_char((n % 10) as int)]
    }
}

fn digit_str(d: u64) -> (r: &'static str)
    requires
        d < 10,
    ensures
        r@ == seq![digit_char(d as int)],
{
    proof {
        reveal_strlit("0");
        reveal_strlit("1");
        reveal_strlit("2");
        reveal_strlit("3");
        reveal_strlit("4");
        reveal_strlit("5");
        reveal_strlit("6");
        reveal_strlit("7");
        reveal_strlit("8");
        reveal_strlit("9");
    }
    let r: &'static str = if d == 0 {
        "0"
    } else if d == 1 {
        "1"
    } else if d == 2 {
        "2"
    } else if d == 3 {
        "3"
    } else if d == 4 {
        "4"
    } else if d == 5 {
        "5"
    } else if d == 6 {
        "6"
    } else if d == 7 {
        "7"
    } else if d == 8 {
        "8"
    } else {
        "9"
    };
    proof {
        assert(r@ =~= seq![digit_char(d as int)]);
    }
    r
}

/// Renders `n` in decimal, exactly the digits of `dec_digits`.
pub fn u64_to_dec(n: u64) -> (r: String)
    ensures
        r@ == dec_digits(n as nat),
    decreases n,
{
    if n < 10 {
        digit_str(n).to_owned()
    } else {
        let mut r = u64_to_dec(n / 10);
        proof {
            assert((n / 10) as nat == n as nat / 10) by (nonlinear_arith);
            assert((n % 10) as nat == n as nat % 10) by (nonlinear_arith);
        }
        r.append(digit_str(n % 10));
        r
    }
}

/// A sign character.
pub open spec fn is_sign(c: char) -> bool {
    c == '+' || c == '-'
}

/// The decimal point.
pub open spec fn is_dot(c: char) -> bool {
    c == '.'
}

/// An exponent marker.
pub open spec fn is_exp_char(c: char) -> bool {
    c == 'e' || c == 'E'
}

/// Every character of `s` in `[from, to)` is a decimal digit.
pub open spec fn digits_in(s: Seq<char>, from: int, to: int) -> bool {
    forall|i: int| #![trigger s[i]] from <= i < to ==> is_ascii_digit(s[i])
}

/// `s[from..to)` is a mantissa: one or more digits, or digits around a
/// single decimal point with at least one digit in all.
pub open spec fn mantissa_in(s: Seq<char>, from: int, to: int) -> bool {
    (from < to && digits_in(s, from, to)) || (to - from >= 2 && exists|d: int|
        #![trigger s[d]]
        from <= d < to && is_dot(s[d]) && digits_in(s, from, d) && digits_in(s, d + 1, to))
}

/// `s[from..to)` is an exponent tail: an optional sign, then one or
/// more digits.
pub open spec fn exp_tail_in(s: Seq<char>, from: int, to: int) -> bool {
    from < to && (if is_sign(s[from]) {
        from + 1 < to && digits_in(s, from + 1, to)
    } else {
        digits_in(s, from, to)
    })
}

/// `s[from..to)` is an unsigned numeric token: a mantissa, optionally
/// followed by an exponent marker and an exponent tail.
pub open spec fn unsigned_numeric_in(s: Seq<char>, from: int, to: int) -> bool {
    mantissa_in(s, from, to) || (exists|e: int|
        #![trigger s[e]]
        from <= e < to && is_exp_char(s[e]) && mantissa_in(s, from, e) && exp_tail_in(
            s,
            e + 1,
            to,
        ))
}

/// A numeric value token: an optional sign, then an unsigned numeric
/// token. This is the only shape of value the renderer accepts; the
/// sentinels the exposition format allows ("NaN", "Inf", ...) are not
/// numeric tokens and fail the render.
pub open spec fn is_numeric_token(s: Seq<char>) -> bool {
    s.len() > 0 && (if is_sign(s[0]) {
        unsigned_numeric_in(s, 1, s.len() as int)
    } else {
        unsigned_numeric_in(s, 0, s.len() as int)
    })
}

/// A mantissa contains only digits and at most one dot, so a range that
/// holds any other character is no mantissa.
proof fn lemma_mantissa_no_special(s: Seq<char>, from: int, to: int, k: int)
    requires
        from <= k < to,
        !is_ascii_digit(s[k]),
        !is_dot(s[k]),
    ensures
        !mantissa_in(s, from, to),
{
    assert(!digits_in(s, from, to));
    assert forall|d: int|
        from <= d < to && is_dot(s[d]) implies !(digits_in(s, from, d) && digits_in(
        s,
        d + 1,
        to,
    )) by {
        if digits_in(s, from, d) && digits_in(s, d + 1, to) {
            assert(k != d);
            if k < d {
                assert(is_ascii_digit(s[k]));
            } else {
                assert(is_ascii_digit(s[k]));
            }
        }
    }
}

fn is_digit_exec(c: char) -> (r: bool)
    ensures
        r == is_ascii_digit(c),
{
    c == '0' || c == '1' || c == '2' || c == '3' || c == '4' || c == '5' || c == '6' || c == '7'
        || c == '8' || c == '9'
}

fn scan_digits(s: &str, from: usize, to: usize) -> (r: bool)
    requires
        from <= to <= s@.len(),
    ensures
        r == digits_in(s@, from as int, to as int),
{
    let mut i = from;
    while i < to
        invariant
            from <= i <= to <= s@.len(),
            digits_in(s@, from as int, i as int),
        decreases to - i,
    {
        if !is_digit_exec(s.get_char(i)) {
            proof {
                assert(!is_ascii_digit(s@[i as int]));
                assert(!digits_in(s@, from as int, to as int));
            }
            return false;
        }
        i = i + 1;
    }
    true
}

fn find_dot(s: &str, from: usize, to: usize) -> (r: usize)
    requires
        from <= to <= s@.len(),
    ensures
        from <= r <= to,
        forall|i: int| #![trigger s@[i]] from <= i < r ==> !is_dot(s@[i]),
        r < to ==> is_dot(s@[r as int]),
{
    let mut i = from;
    while i < to
        invariant
            from <= i <= to <= s@.len(),
            forall|j: int| #![trigger s@[j]] from <= j < i ==> !is_dot(s@[j]),
        decreases to - i,
    {
        if s.get_char(i) == '.' {
            return i;
        }
        i = i + 1;
    }
    i
}

fn find_exp(s: &str, from: usize, to: usize) -> (r: usize)
    requires
        from <= to <= s@.len(),
    ensures
        from <= r <= to,
        forall|i: int| #![trigger s@[i]] from <= i < r ==> !is_exp_char(s@[i]),
        r < to ==> is_exp_char(s@[r as int]),
{
    let mut i = from;
    while i < to
        invariant
            from <= i <= to <= s@.len(),
            forall|j: int| #![trigger s@[j]] from <= j < i ==> !is_exp_char(s@[j]),
        decreases to - i,
    {
        let c = s.get_char(i);
        if c == 'e' || c == 'E' {
            return i;
        }
        i = i + 1;
    }
    i
}

fn check_mantissa(s: &str, from: usize, to: usize) -> (r: bool)
    requires
        from <= to <= s@.len(),
    ensures
        r == mantissa_in(s@, from as int, to as int),
{
    let d = find_dot(s, from, to);
    if d == to {
        // no dot in the range: it must be all digits, nonempty
        let ok = from < to && scan_digits(s, from, to);
        proof {
            if ok {
                assert(mantissa_in(s@, from as int, to as int));
            } else {
                assert forall|dd: int|
                    from as int <= dd < to as int implies !is_dot(s@[dd]) by {}
                assert(!mantissa_in(s@, from as int, to as int));
            }
        }
        ok
    } else {
        // a dot at d, the first one: digits on both sides, and at
        // least one digit in all
        let left = scan_digits(s, from, d);
        let right = scan_digits(s, d + 1, to);
        let ok = to - from >= 2 && left && right;
        proof {
            assert(d < to);
            assert(is_dot(s@[d as int]));
            if ok {
                assert(mantissa_in(s@, from as int, to as int));
            } else {
                assert(!is_ascii_digit(s@[d as int]));
                assert(!digits_in(s@, from as int, to as int));
                assert forall|dd: int|
                    from as int <= dd < to as int && is_dot(s@[dd]) implies !(digits_in(
                    s@,
                    from as int,
                    dd,
                ) && digits_in(s@, dd + 1, to as int) && to as int - from as int >= 2) by {
                    if digits_in(s@, from as int, dd) && digits_in(s@, dd + 1, to as int) {
                        if dd < d as int {
                            assert(!is_dot(s@[dd]));
                        } else if dd > d as int {
                            assert(is_ascii_digit(s@[d as int]));
                        } else {
                            assert(!(to as int - from as int >= 2 && left && right));
                        }
                    }
                }
                assert(!mantissa_in(s@, from as int, to as int));
            }
        }
        ok
    }
}

fn check_exp_tail(s: &str, from: usize, to: usize) -> (r: bool)
    requires
        from <= to <= s@.len(),
    ensures
        r == exp_tail_in(s@, from as int, to as int),
{
    if from >= to {
        return false;
    }
    let c = s.get_char(from);
    if c == '+' || c == '-' {
        from + 1 < to && scan_digits(s, from + 1, to)
    } else {
        scan_digits(s, from, to)
    }
}

/// Decides whether `s` is a numeric value token.
pub fn is_numeric_value(s: &str) -> (r: bool)
    ensures
        r == is_numeric_token(s@),
{
    let n = s.unicode_len();
    if n == 0 {
        return false;
    }
    let c0 = s.get_char(0);
    let start: usize = if c0 == '+' || c0 == '-' {
        1
    } else {
        0
    };
    let e = find_exp(s, start, n);
    let r = if e == n {
        let m = check_mantissa(s, start, n);
        proof {
            assert forall|ee: int|
                start as int <= ee < n as int implies !is_exp_char(s@[ee]) by {}
            assert(m == unsigned_numeric_in(s@, start as int, n as int));
        }
        m
    } else {
        let m = check_mantissa(s, start, e) && check_exp_tail(s, e + 1, n);
        proof {
            assert(is_exp_char(s@[e as int]));
            if m {
                assert(unsigned_numeric_in(s@, start as int, n as int));
            } else {
                assert(!is_ascii_digit(s@[e as int]));
                assert(!is_dot(s@[e as int]));
                lemma_mantissa_no_special(s@, start as int, n as int, e as int);
                assert forall|ee: int|
                    start as int <= ee < n as int && is_exp_char(s@[ee]) implies !(mantissa_in(
                    s@,
                    start as int,
                    ee,
                ) && exp_tail_in(s@, ee + 1, n as int)) by {
                    if ee > e as int {
                        lemma_mantissa_no_special(s@, start as int, ee, e as int);
                    } else {
                        assert(ee == e as int);
                    }
                }
                assert(!unsigned_numeric_in(s@, start as int, n as int));
            }
        }
        m
    };
    proof {
        assert(s@.len() > 0);
        if start == 1 {
            assert(is_sign(s@[0]));
        } else {
            assert(!is_sign(s@[0]));
        }
    }
    r
}

} // verus!
