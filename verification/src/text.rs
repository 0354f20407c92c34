//! Exact decimal text: formatting of counts and milli-scaled values, the
//! matching parsers, and the round-trip laws between them.

use vstd::prelude::*;

verus! {

/// The character of one decimal digit.
pub open spec fn digit_char(d: int) -> char {
    if d == 0 {
        '0'
    } else if d == 1 {
        '1'
    } else if d == 2 {
        '2'
    } else if d == 3 {
        '3'
    } else if d == 4 {
        '4'
    } else if d == 5 {
        '5'
    } else if d == 6 {
        '6'
    } else if d == 7 {
        '7'
    } else if d == 8 {
        '8'
    } else {
        '9'
    }
}

/// The value of one digit character, ten for any other character.
pub open spec fn char_digit(c: char) -> int {
    if c == '0' {
        0
    } else if c == '1' {
        1
    } else if c == '2' {
        2
    } else if c == '3' {
        3
    } else if c == '4' {
        4
    } else if c == '5' {
        5
    } else if c == '6' {
        6
    } else if c == '7' {
        7
    } else if c == '8' {
        8
    } else if c == '9' {
        9
    } else {
        10
    }
}

/// The decimal digits of `n`, most significant first.
pub open spec fn dec_digits_spec(n: nat) -> Seq<char>
    decreases n,
{
    if n < 10 {
        seq![digit_char(n as int)]
    } else {
        dec_digits_spec(n / 10).push(digit_char((n % 10) as int))
    }
}

/// The number a digit string denotes, folding left with `acc` carried in.
pub open spec fn parse_digits_spec(s: Seq<char>, acc: int) -> Option<int>
    decreases s.len(),
{
    if s.len() == 0 {
        Some(acc)
    } else if char_digit(s[0]) >= 10 {
        None
    } else {
        parse_digits_spec(s.skip(1), acc * 10 + char_digit(s[0]))
    }
}

/// Parsing the printed digits of `n` on top of `acc` yields
/// `acc` shifted past them plus `n`.
pub proof fn lemma_parse_digits_of_format(n: nat, acc: int, p: nat)
    requires
        p == dec_digits_spec(n).len(),
    ensures
        parse_digits_spec(dec_digits_spec(n), acc) == Some(acc * vstd::arithmetic::power::pow(10, p) + n),
    decreases n,
{
    vstd::arithmetic::power::lemma_pow_positive(10, p);
    vstd::arithmetic::power::lemma_pow1(10);
    if n < 10 {
        let s = dec_digits_spec(n);
        assert(s =~= seq![digit_char(n as int)]);
        assert(char_digit(s[0]) == n as int);
        assert(s.skip(1) =~= Seq::<char>::empty());
        assert(parse_digits_spec(Seq::<char>::empty(), acc * 10 + n) == Some(acc * 10 + n));
        assert(parse_digits_spec(s, acc) == Some(acc * 10 + n));
        assert(acc * vstd::arithmetic::power::pow(10, 1) == acc * 10) by (nonlinear_arith)
            requires
                vstd::arithmetic::power::pow(10, 1) == 10,
        ;
    } else {
        let hi = dec_digits_spec(n / 10);
        let s = dec_digits_spec(n);
        let d = (n % 10) as int;
        assert(s == hi.push(digit_char(d)));
        vstd::arithmetic::div_mod::lemma_mod_bound(n as int, 10);
        lemma_dec_digits_parse_push(n / 10, d, acc);
        lemma_parse_digits_of_format(n / 10, acc, hi.len());
        let ph = vstd::arithmetic::power::pow(10, hi.len());
        let v = acc * ph + n / 10;
        assert(char_digit(digit_char(d)) == d);
        assert(seq![digit_char(d)].skip(1) =~= Seq::<char>::empty());
        assert(parse_digits_spec(Seq::<char>::empty(), v * 10 + d) == Some(v * 10 + d));
        assert(parse_digits_spec(seq![digit_char(d)], v) == Some(v * 10 + d));
        assert(parse_digits_spec(s, acc) == Some(v * 10 + d));
        vstd::arithmetic::power::lemma_pow_adds(10, hi.len(), 1);
        assert(s.len() == hi.len() + 1);
        assert(p == hi.len() + 1);
        let pw = vstd::arithmetic::power::pow(10, p);
        assert(pw == ph * 10) by (nonlinear_arith)
            requires
                pw == ph * vstd::arithmetic::power::pow(10, 1),
                vstd::arithmetic::power::pow(10, 1) == 10,
        ;
        assert((acc * ph + n / 10) * 10 + d == acc * pw + n) by (nonlinear_arith)
            requires
                n == 10 * (n / 10) + n % 10,
                d == n % 10,
                pw == ph * 10,
        ;
    }
}

/// Appending one digit to a digit string extends its parse by one shift.
proof fn lemma_dec_digits_parse_push(n: nat, d: int, acc: int)
    requires
        0 <= d <= 9,
    ensures
        parse_digits_spec(dec_digits_spec(n).push(digit_char(d)), acc) == match parse_digits_spec(
            dec_digits_spec(n),
            acc,
        ) {
            Some(v) => parse_digits_spec(seq![digit_char(d)], v),
            None => None,
        },
    decreases n,
{
    lemma_parse_append(dec_digits_spec(n), seq![digit_char(d)], acc);
    assert(dec_digits_spec(n).push(digit_char(d)) =~= dec_digits_spec(n) + seq![digit_char(d)]);
}

/// Parsing a concatenation parses the first part, then the second on top.
pub proof fn lemma_parse_append(a: Seq<char>, b: Seq<char>, acc: int)
    ensures
        parse_digits_spec(a + b, acc) == match parse_digits_spec(a, acc) {
            Some(v) => parse_digits_spec(b, v),
            None => None,
        },
    decreases a.len(),
{
    if a.len() == 0 {
        assert(a + b =~= b);
    } else {
        assert((a + b)[0] == a[0]);
        if char_digit(a[0]) < 10 {
            assert((a + b).skip(1) =~= a.skip(1) + b);
            lemma_parse_append(a.skip(1), b, acc * 10 + char_digit(a[0]));
        }
    }
}

/// The digit string of `n` holds only digits and parses back to `n`: the
/// round trip through text is the identity.
pub proof fn lemma_u64_round_trip(n: nat)
    ensures
        parse_digits_spec(dec_digits_spec(n), 0) == Some(n as int),
{
    lemma_parse_digits_of_format(n, 0, dec_digits_spec(n).len());
    let p = dec_digits_spec(n).len();
    assert(0 * vstd::arithmetic::power::pow(10, p) == 0) by (nonlinear_arith);
}

/// One decimal digit as text.
pub fn digit_str(d: u64) -> (r: &'static str)
    requires
        d <= 9,
    ensures
        r@ == seq![digit_char(d as int)],
{
    proof {
        reveal_strlit("0");
        reveal_strlit("1");
        reveal_strlit("2");
        reveal_strlit("3");
        reveal_strlit("4");
        reveal_strlit("5");
        reveal_strlit("6");
        reveal_strlit("7");
        reveal_strlit("8");
        reveal_strlit("9");
    }
    if d == 0 {
        "0"
    } else if d == 1 {
        "1"
    } else if d == 2 {
        "2"
    } else if d == 3 {
        "3"
    } else if d == 4 {
        "4"
    } else if d == 5 {
        "5"
    } else if d == 6 {
        "6"
    } else if d == 7 {
        "7"
    } else if d == 8 {
        "8"
    } else {
        "9"
    }
}

/// Formats `n` in decimal.
pub fn format_u64(n: u64) -> (s: String)
    ensures
        s@ == dec_digits_spec(n as nat),
{
    let mut digits: Vec<u64> = Vec::new();
    let mut m = n;
    while m >= 10
        invariant
            forall|i: int| 0 <= i < digits@.len() ==> 0 <= #[trigger] digits@[i] <= 9,
            dec_digits_spec(n as nat) == dec_digits_spec(m as nat) + digit_seq(digits@),
        decreases m,
    {
        let d = m % 10;
        let next = m / 10;
        proof {
            lemma_format_unfold(m as nat, n as nat, digits@, d, next);
        }
        digits.push(d);
        m = next;
    }
    let mut s = digit_str(m).to_owned();
    proof {
        assert(dec_digits_spec(m as nat) =~= seq![digit_char(m as int)]);
        assert(digit_seq(digits@).take(0) =~= Seq::<char>::empty());
        assert(s@ =~= dec_digits_spec(m as nat) + digit_seq(digits@).take(0));
    }
    let mut i: usize = digits.len();
    while i > 0
        invariant
            0 <= i <= digits@.len(),
            forall|j: int| 0 <= j < digits@.len() ==> 0 <= #[trigger] digits@[j] <= 9,
            s@ == dec_digits_spec(m as nat) + digit_seq(digits@).take(digits@.len() - i),
        decreases i,
    {
        proof {
            assert(digit_seq(digits@).take(digits@.len() - (i as int) + 1)
                =~= digit_seq(digits@).take(digits@.len() - (i as int)).push(
                digit_char(digits@[i as int - 1] as int)));
        }
        i = i - 1;
        s.append(digit_str(digits[i]));
        proof {
            assert(s@ =~= dec_digits_spec(m as nat) + digit_seq(digits@).take(digits@.len()
                - i));
        }
    }
    proof {
        assert(digit_seq(digits@).take(digits@.len() as int) =~= digit_seq(digits@));
    }
    s
}

/// The characters of a digit vector that holds the least significant
/// digit first: the last pushed digit is printed first.
pub open spec fn digit_seq(digits: Seq<u64>) -> Seq<char> {
    Seq::new(digits.len(), |i: int| digit_char(digits[digits.len() - 1 - i] as int))
}

/// One collecting iteration keeps the formatting invariant: taking the
/// low digit off `m` and pushing it onto the collected digits preserves
/// the decomposition of the full digit string.
proof fn lemma_format_unfold(m: nat, n: nat, digits: Seq<u64>, d: u64, next: u64)
    requires
        m >= 10,
        d == m % 10,
        next == m / 10,
        forall|i: int| 0 <= i < digits.len() ==> 0 <= #[trigger] digits[i] <= 9,
        dec_digits_spec(n) == dec_digits_spec(m) + digit_seq(digits),
    ensures
        dec_digits_spec(n) == dec_digits_spec(next as nat) + digit_seq(digits.push(d)),
{
    let pushed = digits.push(d);
    assert(digit_seq(pushed) =~= seq![digit_char(d as int)] + digit_seq(digits));
    assert(dec_digits_spec(m) == dec_digits_spec(next as nat).push(digit_char(d as int)));
    assert(dec_digits_spec(next as nat).push(digit_char(d as int)) + digit_seq(digits)
        =~= dec_digits_spec(next as nat) + digit_seq(pushed));
}

/// The text of a milli-scaled value: an optional minus sign, the whole
/// part, a point, and exactly three fraction digits.
pub open spec fn milli_chars(v: int) -> Seq<char> {
    let mag = vstd::math::abs(v);
    let sign: Seq<char> = if v < 0 {
        seq!['-']
    } else {
        Seq::empty()
    };
    sign + dec_digits_spec(mag / 1000) + seq!['.'] + seq![
        digit_char(((mag / 100) % 10) as int),
        digit_char(((mag / 10) % 10) as int),
        digit_char((mag % 10) as int),
    ]
}

/// Formats a milli-scaled value with three decimals.
pub fn format_milli(v: i64) -> (s: String)
    requires
        v > i64::MIN,
    ensures
        s@ == milli_chars(v as int),
{
    proof {
        reveal_strlit("-");
        reveal_strlit(".");
    }
    let mag: u64 = if v < 0 {
        (-v) as u64
    } else {
        v as u64
    };
    let mut s = if v < 0 {
        "-".to_owned()
    } else {
        String::new()
    };
    let whole = format_u64(mag / 1000);
    s.append(whole.as_str());
    s.append(".");
    s.append(digit_str((mag / 100) % 10));
    s.append(digit_str((mag / 10) % 10));
    s.append(digit_str(mag % 10));
    proof {
        assert(mag as int == vstd::math::abs(v as int) as int);
        assert(s@ =~= milli_chars(v as int));
    }
    s
}

/// The text of a micro-scaled value: an optional minus sign, the whole
/// part, a point, and exactly six fraction digits.
pub open spec fn micro_chars(v: int) -> Seq<char> {
    let mag = vstd::math::abs(v);
    let sign: Seq<char> = if v < 0 {
        seq!['-']
    } else {
        Seq::empty()
    };
    sign + dec_digits_spec(mag / 1000000) + seq!['.'] + seq![
        digit_char(((mag / 100000) % 10) as int),
        digit_char(((mag / 10000) % 10) as int),
        digit_char(((mag / 1000) % 10) as int),
        digit_char(((mag / 100) % 10) as int),
        digit_char(((mag / 10) % 10) as int),
        digit_char((mag % 10) as int),
    ]
}

/// Formats a micro-scaled value with six decimals.
pub fn format_micro(v: i64) -> (s: String)
    requires
        v > i64::MIN,
    ensures
        s@ == micro_chars(v as int),
{
    proof {
        reveal_strlit("-");
        reveal_strlit(".");
    }
    let mag: u64 = if v < 0 {
        (-v) as u64
    } else {
        v as u64
    };
    let mut s = if v < 0 {
        "-".to_owned()
    } else {
        String::new()
    };
    let whole = format_u64(mag / 1000000);
    s.append(whole.as_str());
    s.append(".");
    s.append(digit_str((mag / 100000) % 10));
    s.append(digit_str((mag / 10000) % 10));
    s.append(digit_str((mag / 1000) % 10));
    s.append(digit_str((mag / 100) % 10));
    s.append(digit_str((mag / 10) % 10));
    s.append(digit_str(mag % 10));
    proof {
        assert(mag as int == vstd::math::abs(v as int) as int);
        assert(s@ =~= micro_chars(v as int));
    }
    s
}

/// The value a milli-scaled text denotes: an optional sign, a whole part,
/// a point and exactly three fraction digits.
pub open spec fn parse_milli_spec(s: Seq<char>) -> Option<int> {
    if s.len() > 0 && s[0] == '-' {
        match parse_unsigned_milli_spec(s.skip(1)) {
            Some(v) => Some(-v),
            None => None,
        }
    } else {
        parse_unsigned_milli_spec(s)
    }
}

/// The value an unsigned milli-scaled text denotes.
pub open spec fn parse_unsigned_milli_spec(s: Seq<char>) -> Option<int> {
    if s.len() < 5 {
        None
    } else {
        let k = s.len() - 4;
        let d1 = char_digit(s[k as int + 1]);
        let d2 = char_digit(s[k as int + 2]);
        let d3 = char_digit(s[k as int + 3]);
        if s[k as int] != '.' || d1 >= 10 || d2 >= 10 || d3 >= 10 {
            None
        } else {
            match parse_digits_spec(s.take(k as int), 0) {
                Some(w) => Some(w * 1000 + d1 * 100 + d2 * 10 + d3),
                None => None,
            }
        }
    }
}

/// Parsing a formatted milli-scaled value yields the value back: the
/// round trip through the telemetry text is the identity.
pub proof fn lemma_milli_round_trip(v: int)
    ensures
        parse_milli_spec(milli_chars(v)) == Some(v),
{
    let mag = vstd::math::abs(v) as int;
    let s = milli_chars(v);
    let whole = dec_digits_spec((mag / 1000) as nat);
    let frac = seq![
        digit_char((mag / 100) % 10),
        digit_char((mag / 10) % 10),
        digit_char(mag % 10),
    ];
    lemma_dec_digits_no_sign((mag / 1000) as nat);
    let unsigned = whole + seq!['.'] + frac;
    if v < 0 {
        assert(s =~= seq!['-'] + unsigned);
        assert(s[0] == '-');
        assert(s.skip(1) =~= unsigned);
    } else {
        assert(s =~= unsigned);
        assert(s[0] != '-');
    }
    let k = unsigned.len() - 4;
    assert(k == whole.len());
    assert(unsigned.take(k as int) =~= whole);
    assert(unsigned[k as int] == '.');
    assert(unsigned[k as int + 1] == digit_char((mag / 100) % 10));
    assert(unsigned[k as int + 2] == digit_char((mag / 10) % 10));
    assert(unsigned[k as int + 3] == digit_char(mag % 10));
    lemma_u64_round_trip((mag / 1000) as nat);
    assert(mag / 1000 * 1000 + ((mag / 100) % 10) * 100 + ((mag / 10) % 10) * 10 + mag % 10
        == mag) by (nonlinear_arith)
        requires
            mag >= 0,
    ;
}

/// The printed digits of a number hold digit characters only; in
/// particular they never hold a sign, a point, a comma or a newline.
pub proof fn lemma_dec_digits_no_sign(n: nat)
    ensures
        forall|i: int|
            0 <= i < dec_digits_spec(n).len() ==> char_digit(#[trigger] dec_digits_spec(n)[i])
                < 10,
        dec_digits_spec(n).len() > 0,
    decreases n,
{
    if n < 10 {
        assert(dec_digits_spec(n) =~= seq![digit_char(n as int)]);
        assert(char_digit(dec_digits_spec(n)[0]) == n);
    } else {
        lemma_dec_digits_no_sign(n / 10);
        vstd::arithmetic::div_mod::lemma_mod_bound(n as int, 10);
        assert(forall|i: int|
            0 <= i < dec_digits_spec(n).len() ==> char_digit(#[trigger] dec_digits_spec(n)[i])
                < 10) by {
            assert forall|i: int| 0 <= i < dec_digits_spec(n).len() implies char_digit(
                #[trigger] dec_digits_spec(n)[i],
            ) < 10 by {
                let hi = dec_digits_spec(n / 10);
                assert(dec_digits_spec(n) == hi.push(digit_char((n % 10) as int)));
                if i < hi.len() {
                    assert(dec_digits_spec(n)[i] == hi[i]);
                } else {
                    assert(dec_digits_spec(n)[i] == digit_char((n % 10) as int));
                }
            }
        }
    }
}

/// A character that may stand bare in a CSV field: not a comma, a quote,
/// a carriage return or a newline.
pub open spec fn plain_char(c: char) -> bool {
    c != ',' && c != '"' && c != '\n' && c != '\r'
}

/// A CSV field that needs no quoting.
pub open spec fn plain_field(s: Seq<char>) -> bool {
    forall|i: int| 0 <= i < s.len() ==> plain_char(#[trigger] s[i])
}

/// Digit strings are plain CSV fields.
pub proof fn lemma_digits_plain(n: nat)
    ensures
        plain_field(dec_digits_spec(n)),
{
    lemma_dec_digits_no_sign(n);
    assert forall|i: int| 0 <= i < dec_digits_spec(n).len() implies plain_char(
        #[trigger] dec_digits_spec(n)[i],
    ) by {
        assert(char_digit(dec_digits_spec(n)[i]) < 10);
    }
}

/// Plain fields concatenate to plain fields.
pub proof fn lemma_plain_concat(a: Seq<char>, b: Seq<char>)
    requires
        plain_field(a),
        plain_field(b),
    ensures
        plain_field(a + b),
{
    assert forall|i: int| 0 <= i < (a + b).len() implies plain_char(#[trigger] (a + b)[i]) by {
        if i < a.len() {
            assert((a + b)[i] == a[i]);
        } else {
            assert((a + b)[i] == b[i - a.len()]);
        }
    }
}

/// Digit characters are plain.
proof fn lemma_digit_char_plain(d: int)
    ensures
        plain_char(digit_char(d)),
{
}

/// Milli-formatted values are plain CSV fields.
pub proof fn lemma_milli_plain(v: int)
    ensures
        plain_field(milli_chars(v)),
{
    let mag = vstd::math::abs(v) as int;
    let sign: Seq<char> = if v < 0 {
        seq!['-']
    } else {
        Seq::empty()
    };
    let whole = dec_digits_spec((mag / 1000) as nat);
    let frac = seq![
        digit_char((mag / 100) % 10),
        digit_char((mag / 10) % 10),
        digit_char(mag % 10),
    ];
    lemma_digits_plain((mag / 1000) as nat);
    assert(plain_field(sign));
    assert(plain_field(seq!['.']));
    assert(plain_field(frac));
    lemma_plain_concat(sign, whole);
    lemma_plain_concat(sign + whole, seq!['.']);
    lemma_plain_concat(sign + whole + seq!['.'], frac);
}

/// Micro-formatted values are plain CSV fields.
pub proof fn lemma_micro_plain(v: int)
    ensures
        plain_field(micro_chars(v)),
{
    let mag = vstd::math::abs(v) as int;
    let sign: Seq<char> = if v < 0 {
        seq!['-']
    } else {
        Seq::empty()
    };
    let whole = dec_digits_spec((mag / 1000000) as nat);
    let frac = seq![
        digit_char((mag / 100000) % 10),
        digit_char((mag / 10000) % 10),
        digit_char((mag / 1000) % 10),
        digit_char((mag / 100) % 10),
        digit_char((mag / 10) % 10),
        digit_char(mag % 10),
    ];
    lemma_digits_plain((mag / 1000000) as nat);
    assert(plain_field(sign));
    assert(plain_field(seq!['.']));
    assert(plain_field(frac));
    lemma_plain_concat(sign, whole);
    lemma_plain_concat(sign + whole, seq!['.']);
    lemma_plain_concat(sign + whole + seq!['.'], frac);
}

/// A parse on top of a non-negative accumulator never goes below it.
pub proof fn lemma_parse_lower(s: Seq<char>, acc: int)
    requires
        0 <= acc,
    ensures
        match parse_digits_spec(s, acc) {
            Some(v) => v >= acc,
            None => true,
        },
    decreases s.len(),
{
    if s.len() == 0 {
    } else if char_digit(s[0]) >= 10 {
    } else {
        assert(acc * 10 >= acc) by (nonlinear_arith)
            requires
                acc >= 0,
        ;
        lemma_parse_lower(s.skip(1), acc * 10 + char_digit(s[0]));
    }
}

/// The digit value of a character, ten when it is no digit.
pub fn char_to_digit(c: char) -> (d: u64)
    ensures
        d == char_digit(c),
{
    if c == '0' {
        0
    } else if c == '1' {
        1
    } else if c == '2' {
        2
    } else if c == '3' {
        3
    } else if c == '4' {
        4
    } else if c == '5' {
        5
    } else if c == '6' {
        6
    } else if c == '7' {
        7
    } else if c == '8' {
        8
    } else if c == '9' {
        9
    } else {
        10
    }
}

/// Parses a bare decimal number. `None` exactly on the empty string, on a
/// non-digit character, or when the value does not fit.
pub fn parse_u64_digits(s: &str) -> (r: Option<u64>)
    ensures
        match r {
            Some(v) => s@.len() > 0 && parse_digits_spec(s@, 0) == Some(v as int),
            None => s@.len() == 0 || parse_digits_spec(s@, 0) is None || (parse_digits_spec(
                s@,
                0,
            ) matches Some(v) && v > u64::MAX),
        },
{
    let n = s.unicode_len();
    if n == 0 {
        return None;
    }
    let mut acc: u64 = 0;
    let mut i: usize = 0;
    proof {
        assert(s@.skip(0) =~= s@);
    }
    while i < n
        invariant
            0 <= i <= n,
            n == s@.len(),
            parse_digits_spec(s@, 0) == parse_digits_spec(s@.skip(i as int), acc as int),
        decreases n - i,
    {
        let c = s.get_char(i);
        let d = char_to_digit(c);
        proof {
            assert(s@.skip(i as int)[0] == s@[i as int]);
        }
        if d >= 10 {
            return None;
        }
        if acc > (u64::MAX - d) / 10 {
            proof {
                assert(acc as int * 10 + d > u64::MAX) by (nonlinear_arith)
                    requires
                        acc as int > (u64::MAX - d) as int / 10,
                        0 <= d <= 9,
                ;
                lemma_parse_lower(s@.skip(i as int).skip(1), acc as int * 10 + d);
                assert(s@.skip(i as int).skip(1) =~= s@.skip(i as int + 1));
            }
            return None;
        }
        proof {
            assert(s@.skip(i as int).skip(1) =~= s@.skip(i as int + 1));
        }
        acc = acc * 10 + d;
        i = i + 1;
    }
    proof {
        assert(s@.skip(n as int) =~= Seq::<char>::empty());
    }
    Some(acc)
}

/// The value a micro-scaled text denotes: an optional sign, a whole part,
/// a point and exactly six fraction digits.
pub open spec fn parse_micro_spec(s: Seq<char>) -> Option<int> {
    if s.len() > 0 && s[0] == '-' {
        match parse_unsigned_micro_spec(s.skip(1)) {
            Some(v) => Some(-v),
            None => None,
        }
    } else {
        parse_unsigned_micro_spec(s)
    }
}

/// The value an unsigned micro-scaled text denotes.
pub open spec fn parse_unsigned_micro_spec(s: Seq<char>) -> Option<int> {
    if s.len() < 8 {
        None
    } else {
        let k = s.len() - 7;
        let d1 = char_digit(s[k as int + 1]);
        let d2 = char_digit(s[k as int + 2]);
        let d3 = char_digit(s[k as int + 3]);
        let d4 = char_digit(s[k as int + 4]);
        let d5 = char_digit(s[k as int + 5]);
        let d6 = char_digit(s[k as int + 6]);
        if s[k as int] != '.' || d1 >= 10 || d2 >= 10 || d3 >= 10 || d4 >= 10 || d5 >= 10 || d6
            >= 10 {
            None
        } else {
            match parse_digits_spec(s.take(k as int), 0) {
                Some(w) => Some(
                    w * 1000000 + d1 * 100000 + d2 * 10000 + d3 * 1000 + d4 * 100 + d5 * 10 + d6,
                ),
                None => None,
            }
        }
    }
}

/// Parsing a formatted micro-scaled value yields the value back.
pub proof fn lemma_micro_round_trip(v: int)
    ensures
        parse_micro_spec(micro_chars(v)) == Some(v),
{
    let mag = vstd::math::abs(v) as int;
    let s = micro_chars(v);
    lemma_dec_digits_no_sign((mag / 1000000) as nat);
    let unsigned = dec_digits_spec((mag / 1000000) as nat) + seq!['.'] + seq![
        digit_char((mag / 100000) % 10),
        digit_char((mag / 10000) % 10),
        digit_char((mag / 1000) % 10),
        digit_char((mag / 100) % 10),
        digit_char((mag / 10) % 10),
        digit_char(mag % 10),
    ];
    lemma_unsigned_micro_round_trip(mag);
    if v < 0 {
        assert(s =~= seq!['-'] + unsigned);
        assert(s[0] == '-');
        assert(s.skip(1) =~= unsigned);
    } else {
        assert(s =~= unsigned);
        assert(s[0] != '-');
    }
}

/// The unsigned micro text of a non-negative value parses back to it.
#[verifier::rlimit(100)]
proof fn lemma_unsigned_micro_round_trip(mag: int)
    requires
        0 <= mag,
    ensures
        ({
            let unsigned = dec_digits_spec((mag / 1000000) as nat) + seq!['.'] + seq![
                digit_char((mag / 100000) % 10),
                digit_char((mag / 10000) % 10),
                digit_char((mag / 1000) % 10),
                digit_char((mag / 100) % 10),
                digit_char((mag / 10) % 10),
                digit_char(mag % 10),
            ];
            parse_unsigned_micro_spec(unsigned) == Some(mag)
        }),
{
    let whole = dec_digits_spec((mag / 1000000) as nat);
    let frac = seq![
        digit_char((mag / 100000) % 10),
        digit_char((mag / 10000) % 10),
        digit_char((mag / 1000) % 10),
        digit_char((mag / 100) % 10),
        digit_char((mag / 10) % 10),
        digit_char(mag % 10),
    ];
    lemma_dec_digits_no_sign((mag / 1000000) as nat);
    let unsigned = whole + seq!['.'] + frac;
    let k = unsigned.len() - 7;
    assert(k == whole.len());
    assert(unsigned.take(k as int) =~= whole);
    assert(unsigned[k as int] == '.');
    assert(unsigned[k as int + 1] == digit_char((mag / 100000) % 10));
    assert(unsigned[k as int + 2] == digit_char((mag / 10000) % 10));
    assert(unsigned[k as int + 3] == digit_char((mag / 1000) % 10));
    assert(unsigned[k as int + 4] == digit_char((mag / 100) % 10));
    assert(unsigned[k as int + 5] == digit_char((mag / 10) % 10));
    assert(unsigned[k as int + 6] == digit_char(mag % 10));
    lemma_u64_round_trip((mag / 1000000) as nat);
    lemma_digit_decomposition(mag);
}

/// A non-negative value is its seventh quotient followed by six digits.
proof fn lemma_digit_decomposition(mag: int)
    requires
        0 <= mag,
    ensures
        mag / 1000000 * 1000000 + ((mag / 100000) % 10) * 100000 + ((mag / 10000) % 10) * 10000 + (
        (mag / 1000) % 10) * 1000 + ((mag / 100) % 10) * 100 + ((mag / 10) % 10) * 10 + mag % 10
            == mag,
{
    vstd::arithmetic::div_mod::lemma_fundamental_div_mod(mag, 10);
    vstd::arithmetic::div_mod::lemma_fundamental_div_mod(mag / 10, 10);
    vstd::arithmetic::div_mod::lemma_fundamental_div_mod(mag / 100, 10);
    vstd::arithmetic::div_mod::lemma_fundamental_div_mod(mag / 1000, 10);
    vstd::arithmetic::div_mod::lemma_fundamental_div_mod(mag / 10000, 10);
    vstd::arithmetic::div_mod::lemma_fundamental_div_mod(mag / 100000, 10);
    vstd::arithmetic::div_mod::lemma_div_denominator(mag, 10, 10);
    vstd::arithmetic::div_mod::lemma_div_denominator(mag, 100, 10);
    vstd::arithmetic::div_mod::lemma_div_denominator(mag, 1000, 10);
    vstd::arithmetic::div_mod::lemma_div_denominator(mag, 10000, 10);
    vstd::arithmetic::div_mod::lemma_div_denominator(mag, 100000, 10);
}

} // verus!
