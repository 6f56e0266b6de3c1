//! Verified decimal arithmetic on scaled integers.
//!
//! Prices and sizes are held as non-negative fixed-point numbers: a `u64`
//! counting units of `1 / SCALE`. Venues quote them as decimal strings
//! ("50000.1"), so this module proves an exact parser and formatter for
//! that notation, including the round trip.
use vstd::prelude::*;

verus! {

/// One whole unit, in fixed-point ticks: values carry eight decimal places.
pub const SCALE: u64 = 100_000_000;

pub open spec fn is_digit(c: char) -> bool {
    '0' <= c && c <= '9'
}

pub open spec fn digit_val(c: char) -> int {
    c as int - '0' as int
}

pub open spec fn all_digits(s: Seq<char>) -> bool {
    forall|i: int| 0 <= i < s.len() ==> is_digit(s[i])
}

pub open spec fn spec_digit_char(d: int) -> char {
    if d == 0 {
        '0'
    } else if d == 1 {
        '1'
    } else if d == 2 {
        '2'
    } else if d == 3 {
        '3'
    } else if d == 4 {
        '4'
    } else if d == 5 {
        '5'
    } else if d == 6 {
        '6'
    } else if d == 7 {
        '7'
    } else if d == 8 {
        '8'
    } else {
        '9'
    }
}

/// The decimal digits of `n`, most significant first, with no sign and no
/// leading zero except for `n == 0` itself.
pub open spec fn spec_digits(n: nat) -> Seq<char>
    decreases n,
{
    if n < 10 {
        seq![spec_digit_char(n as int)]
    } else {
        spec_digits(n / 10) + seq![spec_digit_char((n % 10) as int)]
    }
}

/// The numeric value of a digit string, read in base ten.
pub open spec fn spec_digits_val(s: Seq<char>) -> nat
    decreases s.len(),
{
    if s.len() == 0 {
        0
    } else {
        (spec_digits_val(s.drop_last()) * 10 + digit_val(s.last())) as nat
    }
}

pub open spec fn pow10(k: nat) -> nat
    decreases k,
{
    if k == 0 {
        1
    } else {
        10 * pow10((k - 1) as nat)
    }
}

pub proof fn lemma_digits_of_val(n: nat)
    ensures
        spec_digits_val(spec_digits(n)) == n,
        all_digits(spec_digits(n)),
        spec_digits(n).len() >= 1,
    decreases n,
{
    if n < 10 {
        let one = seq![spec_digit_char(n as int)];
        assert(spec_digits(n) =~= one);
        assert(one.drop_last() =~= Seq::<char>::empty());
        assert(one.last() == spec_digit_char(n as int));
        assert(digit_val(spec_digit_char(n as int)) == n);
        assert(spec_digits_val(Seq::<char>::empty()) == 0);
        assert(spec_digits_val(one) == n);
    } else {
        lemma_digits_of_val(n / 10);
        let tail = seq![spec_digit_char((n % 10) as int)];
        let whole = spec_digits(n / 10) + tail;
        assert(whole.drop_last() =~= spec_digits(n / 10));
        assert(whole.last() == spec_digit_char((n % 10) as int));
        assert(spec_digits_val(whole) == n / 10 * 10 + n % 10);
        assert(n / 10 * 10 + n % 10 == n) by {
            vstd::arithmetic::div_mod::lemma_fundamental_div_mod(n as int, 10);
        }
    }
}

pub proof fn lemma_digits_len_le(n: nat, k: nat)
    requires
        1 <= k,
        n < pow10(k),
    ensures
        spec_digits(n).len() <= k,
    decreases n,
{
    if n < 10 {
    } else {
        assert(pow10(k) == 10 * pow10((k - 1) as nat));
        assert(n / 10 < pow10((k - 1) as nat));
        assert(k >= 2) by {
            reveal_with_fuel(pow10, 2);
            if k < 2 {
                assert(pow10(k) == 10);
            }
        }
        lemma_digits_len_le(n / 10, (k - 1) as nat);
    }
}

pub proof fn lemma_digits_val_bound(s: Seq<char>)
    requires
        all_digits(s),
    ensures
        spec_digits_val(s) < pow10(s.len()),
    decreases s.len(),
{
    if s.len() == 0 {
    } else {
        lemma_digits_val_bound(s.drop_last());
        assert(is_digit(s.last()));
        assert(digit_val(s.last()) <= 9);
        assert(spec_digits_val(s.drop_last()) <= pow10((s.len() - 1) as nat) - 1);
        assert(pow10(s.len()) == 10 * pow10((s.len() - 1) as nat));
    }
}

/// Prefixes of a digit string never exceed the whole string in value.
pub proof fn lemma_digits_val_take_le(s: Seq<char>, i: int)
    requires
        all_digits(s),
        0 <= i <= s.len(),
    ensures
        spec_digits_val(s.take(i)) <= spec_digits_val(s),
    decreases s.len() - i,
{
    if i == s.len() {
        assert(s.take(i) =~= s);
    } else {
        assert(s.take(i + 1).drop_last() =~= s.take(i));
        assert(s.take(i + 1).last() == s[i]);
        assert(spec_digits_val(s.take(i + 1)) == spec_digits_val(s.take(i)) * 10 + digit_val(
            s[i],
        ));
        lemma_digits_val_take_le(s, i + 1);
    }
}

/// Leading zeros do not change the value of a digit string.
pub proof fn lemma_zeros_prefix_val(k: nat, s: Seq<char>)
    ensures
        spec_digits_val(zeros(k) + s) == spec_digits_val(s),
    decreases s.len(),
{
    if s.len() == 0 {
        assert(zeros(k) + s =~= zeros(k));
        lemma_zeros_val(k);
    } else {
        assert((zeros(k) + s).drop_last() =~= zeros(k) + s.drop_last());
        assert((zeros(k) + s).last() == s.last());
        lemma_zeros_prefix_val(k, s.drop_last());
    }
}

pub proof fn lemma_zeros_val(k: nat)
    ensures
        spec_digits_val(zeros(k)) == 0,
    decreases k,
{
    if k == 0 {
        assert(zeros(0) =~= Seq::<char>::empty());
    } else {
        assert(zeros(k).drop_last() =~= zeros((k - 1) as nat));
        assert(zeros(k).last() == '0');
        lemma_zeros_val((k - 1) as nat);
    }
}

pub open spec fn zeros(k: nat) -> Seq<char> {
    Seq::new(k, |i: int| '0')
}

/// One digit as a string slice.
fn digit_str(d: u64) -> (r: &'static str)
    requires
        d < 10,
    ensures
        r@ =~= seq![spec_digit_char(d as int)],
{
    if d == 0 {
        proof {
            reveal_strlit("0");
        }
        "0"
    } else if d == 1 {
        proof {
            reveal_strlit("1");
        }
        "1"
    } else if d == 2 {
        proof {
            reveal_strlit("2");
        }
        "2"
    } else if d == 3 {
        proof {
            reveal_strlit("3");
        }
        "3"
    } else if d == 4 {
        proof {
            reveal_strlit("4");
        }
        "4"
    } else if d == 5 {
        proof {
            reveal_strlit("5");
        }
        "5"
    } else if d == 6 {
        proof {
            reveal_strlit("6");
        }
        "6"
    } else if d == 7 {
        proof {
            reveal_strlit("7");
        }
        "7"
    } else if d == 8 {
        proof {
            reveal_strlit("8");
        }
        "8"
    } else {
        proof {
            reveal_strlit("9");
        }
        "9"
    }
}

/// Renders `n` in decimal.
pub fn fmt_u64(n: u64) -> (r: String)
    ensures
        r@ == spec_digits(n as nat),
    decreases n,
{
    if n < 10 {
        let s = digit_str(n).to_owned();
        proof {
            assert(s@ =~= spec_digits(n as nat));
        }
        s
    } else {
        let mut s = fmt_u64(n / 10);
        s.append(digit_str(n % 10));
        proof {
            assert(s@ =~= spec_digits(n as nat));
        }
        s
    }
}

/// `Some(a * b + c)` when that fits in a `u64`, else `None`.
pub fn mul_add_checked(a: u64, b: u64, c: u64) -> (r: Option<u64>)
    ensures
        match r {
            Some(v) => a * b + c <= u64::MAX && v == a * b + c,
            None => a * b + c > u64::MAX,
        },
{
    if b == 0 {
        proof {
            assert(a * 0 == 0);
        }
        return Some(c);
    }
    let q = (u64::MAX - c) / b;
    proof {
        vstd::arithmetic::div_mod::lemma_fundamental_div_mod((u64::MAX - c) as int, b as int);
        vstd::arithmetic::div_mod::lemma_mod_division_less_than_divisor(
            (u64::MAX - c) as int,
            b as int,
        );
        assert(b * q + (u64::MAX - c) as int % b as int == (u64::MAX - c) as int);
        assert(b * q <= (u64::MAX - c) as int);
    }
    if a <= q {
        proof {
            vstd::arithmetic::mul::lemma_mul_inequality(a as int, q as int, b as int);
            assert(a * b <= q * b);
            vstd::arithmetic::mul::lemma_mul_is_commutative(q as int, b as int);
            assert(a * b + c <= u64::MAX);
        }
        Some(a * b + c)
    } else {
        proof {
            vstd::arithmetic::mul::lemma_mul_inequality((q + 1) as int, a as int, b as int);
            assert((q + 1) * b <= a * b);
            vstd::arithmetic::mul::lemma_mul_is_distributive_add_other_way(
                b as int,
                q as int,
                1,
            );
            assert((q + 1) * b == q * b + b);
            vstd::arithmetic::mul::lemma_mul_is_commutative(q as int, b as int);
            assert(a * b + c > u64::MAX);
        }
        None
    }
}

/// Reads a plain decimal integer; `None` on empty input, a non-digit
/// character, or overflow, and only then.
pub fn parse_u64(s: &str) -> (r: Option<u64>)
    ensures
        match r {
            Some(v) => s@.len() > 0 && all_digits(s@) && spec_digits_val(s@) <= u64::MAX && v
                == spec_digits_val(s@),
            None => !(s@.len() > 0 && all_digits(s@) && spec_digits_val(s@) <= u64::MAX),
        },
{
    let len: usize = s.unicode_len();
    if len == 0 {
        return None;
    }
    let mut acc: u64 = 0;
    let mut i: usize = 0;
    while i < len
        invariant
            len == s@.len(),
            0 < len,
            i <= len,
            all_digits(s@.take(i as int)),
            acc == spec_digits_val(s@.take(i as int)),
        decreases len - i,
    {
        let c = s.get_char(i);
        let cu = c as u32;
        if cu < 48 || cu > 57 {
            proof {
                assert('0' as int == 48 && '9' as int == 57);
                assert(!is_digit(s@[i as int]));
            }
            return None;
        }
        let d: u64 = (cu - 48) as u64;
        proof {
            assert(is_digit(s@[i as int]));
            assert(d == digit_val(s@[i as int]));
            assert(s@.take(i + 1).drop_last() =~= s@.take(i as int));
            assert(s@.take(i + 1).last() == s@[i as int]);
            assert(all_digits(s@.take(i + 1)));
        }
        match mul_add_checked(acc, 10, d) {
            Some(v) => {
                acc = v;
            },
            None => {
                proof {
                    assert(spec_digits_val(s@.take(i + 1)) > u64::MAX);
                    if all_digits(s@) {
                        lemma_digits_val_take_le(s@, i + 1);
                        assert(spec_digits_val(s@) > u64::MAX);
                    }
                }
                return None;
            },
        }
        i += 1;
    }
    proof {
        assert(s@.take(len as int) =~= s@);
    }
    Some(acc)
}

/// The index of the first `c` in `s`, or `-1` when there is none.
pub open spec fn char_index_of(s: Seq<char>, c: char) -> int
    decreases s.len(),
{
    if s.len() == 0 {
        -1
    } else if s[0] == c {
        0
    } else if char_index_of(s.drop_first(), c) == -1 {
        -1
    } else {
        char_index_of(s.drop_first(), c) + 1
    }
}

pub proof fn lemma_char_index_of(s: Seq<char>, c: char)
    ensures
        char_index_of(s, c) == -1 ==> forall|j: int| 0 <= j < s.len() ==> s[j] != c,
        char_index_of(s, c) != -1 ==> {
            let i = char_index_of(s, c);
            &&& 0 <= i < s.len()
            &&& s[i] == c
            &&& forall|j: int| 0 <= j < i ==> s[j] != c
        },
    decreases s.len(),
{
    if s.len() == 0 {
    } else if s[0] == c {
    } else {
        let t = s.drop_first();
        lemma_char_index_of(t, c);
        assert forall|j: int| 1 <= j < s.len() implies s[j] == t[j - 1] by {}
        if char_index_of(t, c) == -1 {
            assert forall|j: int| 0 <= j < s.len() implies s[j] != c by {
                if j >= 1 {
                    assert(t[j - 1] != c);
                }
            }
        } else {
            let i = char_index_of(t, c);
            assert(s[i + 1] == t[i]);
            assert forall|j: int| 0 <= j < i + 1 implies s[j] != c by {
                if j >= 1 {
                    assert(t[j - 1] != c);
                }
            }
        }
    }
}

/// The first index holding `c` determines `char_index_of`.
pub proof fn lemma_char_index_of_first(s: Seq<char>, c: char, i: int)
    requires
        0 <= i < s.len(),
        s[i] == c,
        forall|j: int| 0 <= j < i ==> s[j] != c,
    ensures
        char_index_of(s, c) == i,
    decreases s.len(),
{
    if i == 0 {
    } else {
        let t = s.drop_first();
        assert(forall|j: int| 0 <= j < t.len() ==> t[j] == s[j + 1]);
        assert(t[i - 1] == c);
        lemma_char_index_of_first(t, c, i - 1);
    }
}

/// The meaning of a decimal string, as a scaled integer: an unsigned
/// integer part, optionally followed by `.` and one to eight fraction
/// digits. `None` for anything else, or when the value does not fit.
pub open spec fn spec_parse_scaled(s: Seq<char>) -> Option<u64> {
    let i = char_index_of(s, '.');
    if i == -1 {
        if s.len() > 0 && all_digits(s) && spec_digits_val(s) * SCALE <= u64::MAX {
            Some((spec_digits_val(s) * SCALE) as u64)
        } else {
            None
        }
    } else {
        let ip = s.take(i);
        let fp = s.skip(i + 1);
        if ip.len() > 0 && all_digits(ip) && 0 < fp.len() <= 8 && all_digits(fp)
            && spec_digits_val(ip) * SCALE + spec_digits_val(fp) * pow10((8 - fp.len()) as nat)
            <= u64::MAX {
            Some(
                (spec_digits_val(ip) * SCALE + spec_digits_val(fp) * pow10(
                    (8 - fp.len()) as nat,
                )) as u64,
            )
        } else {
            None
        }
    }
}

/// Powers of ten up to the fraction width.
fn pow10_u64(k: usize) -> (r: u64)
    requires
        k <= 8,
    ensures
        r == pow10(k as nat),
{
    proof {
        reveal_with_fuel(pow10, 9);
    }
    if k == 0 {
        1
    } else if k == 1 {
        10
    } else if k == 2 {
        100
    } else if k == 3 {
        1_000
    } else if k == 4 {
        10_000
    } else if k == 5 {
        100_000
    } else if k == 6 {
        1_000_000
    } else if k == 7 {
        10_000_000
    } else {
        100_000_000
    }
}

/// Reads a decimal string into a scaled integer; `None` exactly where
/// `spec_parse_scaled` says so.
pub fn parse_scaled(s: &str) -> (r: Option<u64>)
    ensures
        r == spec_parse_scaled(s@),
{
    let len: usize = s.unicode_len();
    let dot = crate::strutil::find_char(s, 0, '.');
    match dot {
        None => {
            proof {
                lemma_char_index_of(s@, '.');
                if char_index_of(s@, '.') != -1 {
                    assert(s@[char_index_of(s@, '.')] == '.');
                }
                assert(char_index_of(s@, '.') == -1);
            }
            match parse_u64(s) {
                None => {
                    proof {
                        if s@.len() > 0 && all_digits(s@) && spec_digits_val(s@) * SCALE
                            <= u64::MAX {
                            assert(spec_digits_val(s@) <= spec_digits_val(s@) * SCALE) by {
                                vstd::arithmetic::mul::lemma_mul_inequality(
                                    1,
                                    SCALE as int,
                                    spec_digits_val(s@) as int,
                                );
                                vstd::arithmetic::mul::lemma_mul_is_commutative(
                                    spec_digits_val(s@) as int,
                                    SCALE as int,
                                );
                            }
                        }
                    }
                    None
                },
                Some(v) => {
                    match mul_add_checked(v, SCALE, 0) {
                        None => None,
                        Some(w) => Some(w),
                    }
                },
            }
        },
        Some(i) => {
            proof {
                lemma_char_index_of_first(s@, '.', i as int);
            }
            let ip = s.substring_char(0, i);
            let fp = s.substring_char(i + 1, len);
            proof {
                assert(ip@ =~= s@.take(i as int));
                assert(fp@ =~= s@.skip(i + 1));
            }
            let fl: usize = len - (i + 1);
            proof {
                assert(fp@.len() == fl);
            }
            if fl == 0 || fl > 8 {
                return None;
            }
            let ipv = match parse_u64(ip) {
                None => {
                    proof {
                        lemma_int_part_overflow(s@.take(i as int), s@.skip(i + 1));
                    }
                    return None;
                },
                Some(v) => v,
            };
            let fpv = match parse_u64(fp) {
                None => {
                    proof {
                        if all_digits(s@.skip(i + 1)) {
                            lemma_frac_fits(s@.skip(i + 1));
                        }
                    }
                    return None;
                },
                Some(v) => v,
            };
            let mult = pow10_u64(8 - fl);
            proof {
                lemma_frac_scaled_fits(s@.skip(i + 1));
            }
            let frac_scaled = fpv * mult;
            match mul_add_checked(ipv, SCALE, frac_scaled) {
                None => None,
                Some(w) => Some(w),
            }
        },
    }
}

/// A fraction of at most eight digits always fits in a `u64`.
proof fn lemma_frac_fits(fp: Seq<char>)
    requires
        all_digits(fp),
        fp.len() <= 8,
    ensures
        spec_digits_val(fp) <= u64::MAX,
        spec_digits_val(fp) < pow10(8),
{
    lemma_digits_val_bound(fp);
    lemma_pow10_le(fp.len(), 8);
    assert(pow10(8) == 100_000_000) by {
        reveal_with_fuel(pow10, 9);
    }
}

proof fn lemma_pow10_le(a: nat, b: nat)
    requires
        a <= b,
    ensures
        pow10(a) <= pow10(b),
    decreases b,
{
    if a < b {
        lemma_pow10_le(a, (b - 1) as nat);
        assert(pow10(b) == 10 * pow10((b - 1) as nat));
    }
}

proof fn lemma_pow10_adds(a: nat, b: nat)
    ensures
        pow10(a) * pow10(b) == pow10(a + b),
    decreases a,
{
    if a == 0 {
        assert(pow10(0) == 1);
    } else {
        lemma_pow10_adds((a - 1) as nat, b);
        assert(pow10(a) == 10 * pow10((a - 1) as nat));
        vstd::arithmetic::mul::lemma_mul_is_associative(
            10,
            pow10((a - 1) as nat) as int,
            pow10(b) as int,
        );
    }
}

/// The scaled fraction part stays below one whole unit.
proof fn lemma_frac_scaled_fits(fp: Seq<char>)
    requires
        all_digits(fp),
        0 < fp.len() <= 8,
    ensures
        spec_digits_val(fp) * pow10((8 - fp.len()) as nat) < SCALE,
{
    lemma_digits_val_bound(fp);
    let k = (8 - fp.len()) as nat;
    assert(pow10(k) > 0) by {
        lemma_pow10_le(0, k);
    }
    vstd::arithmetic::mul::lemma_mul_strict_inequality(
        spec_digits_val(fp) as int,
        pow10(fp.len()) as int,
        pow10(k) as int,
    );
    lemma_pow10_adds(fp.len(), k);
    assert(pow10(fp.len() + k) == pow10(8));
    assert(pow10(8) == 100_000_000) by {
        reveal_with_fuel(pow10, 9);
    }
}

/// When the integer part alone overflows a `u64`, the whole scaled value
/// does too.
proof fn lemma_int_part_overflow(ip: Seq<char>, fp: Seq<char>)
    requires
        !(ip.len() > 0 && all_digits(ip) && spec_digits_val(ip) <= u64::MAX),
    ensures
        !(ip.len() > 0 && all_digits(ip) && 0 < fp.len() <= 8 && all_digits(fp)
            && spec_digits_val(ip) * SCALE + spec_digits_val(fp) * pow10((8 - fp.len()) as nat)
            <= u64::MAX),
{
    if ip.len() > 0 && all_digits(ip) {
        assert(spec_digits_val(ip) > u64::MAX);
        assert(spec_digits_val(ip) <= spec_digits_val(ip) * SCALE) by {
            vstd::arithmetic::mul::lemma_mul_inequality(1, SCALE as int, spec_digits_val(ip) as int);
            vstd::arithmetic::mul::lemma_mul_is_commutative(
                spec_digits_val(ip) as int,
                SCALE as int,
            );
        }
    }
}

/// Renders a scaled integer as its decimal text: the whole units, a dot,
/// and exactly eight fraction digits.
pub open spec fn spec_fmt_scaled(v: u64) -> Seq<char> {
    spec_digits((v / SCALE) as nat) + seq!['.'] + zeros((8 - spec_digits((v % SCALE) as nat).len()) as nat)
        + spec_digits((v % SCALE) as nat)
}

/// Zero-padding for the fraction part.
fn zeros_str(k: usize) -> (r: &'static str)
    requires
        k <= 7,
    ensures
        r@ =~= zeros(k as nat),
{
    let r: &'static str = if k == 0 {
        ""
    } else if k == 1 {
        "0"
    } else if k == 2 {
        "00"
    } else if k == 3 {
        "000"
    } else if k == 4 {
        "0000"
    } else if k == 5 {
        "00000"
    } else if k == 6 {
        "000000"
    } else {
        "0000000"
    };
    proof {
        reveal_strlit("");
        reveal_strlit("0");
        reveal_strlit("00");
        reveal_strlit("000");
        reveal_strlit("0000");
        reveal_strlit("00000");
        reveal_strlit("000000");
        reveal_strlit("0000000");
        assert(r@ =~= zeros(k as nat));
    }
    r
}

pub fn fmt_scaled(v: u64) -> (r: String)
    ensures
        r@ == spec_fmt_scaled(v),
{
    let whole = v / SCALE;
    let frac = v % SCALE;
    let mut out = fmt_u64(whole);
    out.append(".");
    let fd = fmt_u64(frac);
    let fl: usize = fd.as_str().unicode_len();
    proof {
        lemma_digits_of_val(frac as nat);
        assert(pow10(8) == 100_000_000) by {
            reveal_with_fuel(pow10, 9);
        }
        lemma_digits_len_le(frac as nat, 8);
        reveal_strlit(".");
    }
    out.append(zeros_str(8 - fl));
    out.append(fd.as_str());
    proof {
        assert(out@ =~= spec_fmt_scaled(v));
    }
    out
}

/// Round trip: parsing the rendered text of a scaled value gives the value
/// back.
pub proof fn lemma_parse_fmt_scaled(v: u64)
    ensures
        spec_parse_scaled(spec_fmt_scaled(v)) == Some(v),
{
    let ipd = spec_digits((v / SCALE) as nat);
    let frd = spec_digits((v % SCALE) as nat);
    let k = (8 - frd.len()) as nat;
    let fp = zeros(k) + frd;
    let s = spec_fmt_scaled(v);
    lemma_digits_of_val((v / SCALE) as nat);
    lemma_digits_of_val((v % SCALE) as nat);
    assert(pow10(8) == 100_000_000) by {
        reveal_with_fuel(pow10, 9);
    }
    lemma_digits_len_le((v % SCALE) as nat, 8);
    // the first dot sits right after the integer digits
    assert(s[ipd.len() as int] == '.');
    assert(forall|j: int| 0 <= j < ipd.len() ==> s[j] == ipd[j]);
    assert(forall|j: int| 0 <= j < ipd.len() ==> s[j] != '.');
    lemma_char_index_of_first(s, '.', ipd.len() as int);
    assert(s.take(ipd.len() as int) =~= ipd);
    assert(s.skip(ipd.len() as int + 1) =~= fp);
    // the fraction block holds exactly eight digits and the padded value
    assert(fp.len() == 8);
    assert(all_digits(fp)) by {
        assert(forall|j: int| 0 <= j < fp.len() ==> #[trigger] fp[j] == if j < k {
            '0'
        } else {
            frd[j - k]
        });
    }
    lemma_zeros_prefix_val(k, frd);
    assert(spec_digits_val(fp) == v % SCALE);
    assert(pow10((8 - fp.len()) as nat) == 1);
    assert(spec_digits_val(ipd) * SCALE + spec_digits_val(fp) * pow10((8 - fp.len()) as nat) == v)
        by {
        assert(spec_digits_val(fp) * 1 == spec_digits_val(fp));
        vstd::arithmetic::div_mod::lemma_fundamental_div_mod(v as int, SCALE as int);
    }
}

} // verus!
