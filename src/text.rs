//! Splitting and reading of text: separators, decimal numbers, sizes with
//! units, network addresses.

use vstd::prelude::*;
use vstd::string::StrSliceExecFns;

verus! {

/// The pieces of `s` between occurrences of `sep`, in order; text without a
/// separator is one piece, and the empty text is one empty piece.
pub open spec fn split_seq(s: Seq<char>, sep: char) -> Seq<Seq<char>>
    decreases s.len(),
{
    if s.len() == 0 {
        seq![Seq::<char>::empty()]
    } else {
        let rest = split_seq(s.drop_last(), sep);
        if s.last() == sep {
            rest.push(Seq::<char>::empty())
        } else {
            rest.update(rest.len() - 1, rest.last().push(s.last()))
        }
    }
}

pub proof fn lemma_split_seq_nonempty(s: Seq<char>, sep: char)
    ensures
        split_seq(s, sep).len() >= 1,
    decreases s.len(),
{
    if s.len() > 0 {
        lemma_split_seq_nonempty(s.drop_last(), sep);
    }
}

/// The texts of a list of strings.
pub open spec fn strings_view(v: Seq<String>) -> Seq<Seq<char>> {
    v.map_values(|s: String| s@)
}

/// The characters of `s`.
pub fn chars_of(s: &str) -> (r: Vec<char>)
    ensures
        r@ == s@,
{
    let n = s.unicode_len();
    let mut r: Vec<char> = Vec::new();
    for i in 0..n
        invariant
            n == s@.len(),
            r@ == s@.take(i as int),
    {
        r.push(s.get_char(i));
        assert(r@ =~= s@.take(i as int + 1));
    }
    assert(r@ =~= s@);
    r
}

/// The pieces of `s` between occurrences of `sep`, as `split_seq` states.
pub fn split_on(s: &str, sep: char) -> (r: Vec<String>)
    ensures
        strings_view(r@) == split_seq(s@, sep),
{
    let cs = chars_of(s);
    let mut r: Vec<String> = Vec::new();
    let mut start: usize = 0;
    let mut i: usize = 0;
    proof {
        assert(s@.take(0) =~= Seq::<char>::empty());
        assert(s@.subrange(0, 0) =~= Seq::<char>::empty());
        assert(strings_view(r@).push(s@.subrange(0, 0)) =~= seq![Seq::<char>::empty()]);
    }
    while i < cs.len()
        invariant
            cs@ == s@,
            start <= i <= cs.len(),
            strings_view(r@).push(s@.subrange(start as int, i as int)) == split_seq(
                s@.take(i as int),
                sep,
            ),
        decreases cs.len() - i,
    {
                proof {
            lemma_split_seq_nonempty(s@.take(i as int), sep);
            assert(s@.take(i as int + 1).drop_last() =~= s@.take(i as int));
            assert(s@.take(i as int + 1).last() == cs@[i as int]);
        }
        if cs[i] == sep {
            let piece = s.substring_char(start, i).to_owned();
            r.push(piece);
            start = i + 1;
            proof {
                assert(s@.subrange(start as int, i as int + 1) =~= Seq::<char>::empty());
            }
        } else {
            proof {
                assert(s@.subrange(start as int, i as int + 1) =~= s@.subrange(start as int, i as int).push(cs@[i as int]));
            }
        }
        i = i + 1;
        proof {
            assert(strings_view(r@).push(s@.subrange(start as int, i as int)) =~= split_seq(
                s@.take(i as int),
                sep,
            ));
        }
    }
    let last = s.substring_char(start, i).to_owned();
    r.push(last);
    proof {
        assert(s@.take(i as int) =~= s@);
        assert(strings_view(r@) =~= split_seq(s@, sep));
    }
    r
}


pub open spec fn is_digit(c: char) -> bool {
    '0' <= c && c <= '9'
}

/// A non-empty run of decimal digits.
pub open spec fn is_digits(s: Seq<char>) -> bool {
    s.len() > 0 && forall|i: int| 0 <= i < s.len() ==> is_digit(#[trigger] s[i])
}

/// The number that a run of decimal digits writes.
pub open spec fn digits_value(s: Seq<char>) -> int
    decreases s.len(),
{
    if s.len() == 0 {
        0
    } else {
        digits_value(s.drop_last()) * 10 + (s.last() as u32 - '0' as u32)
    }
}

proof fn lemma_digits_value_grows(s: Seq<char>, j: int, k: int)
    requires
        forall|i: int| 0 <= i < s.len() ==> is_digit(#[trigger] s[i]),
        0 <= j <= k <= s.len(),
    ensures
        0 <= digits_value(s.take(j)) <= digits_value(s.take(k)),
    decreases k,
{
    if k > 0 {
        assert(s.take(k).drop_last() =~= s.take(k - 1));
        if j < k {
            lemma_digits_value_grows(s, j, k - 1);
        } else {
            lemma_digits_value_grows(s, j - 1, k - 1);
        }
    }
}

/// The number written by the digits `cs[from..to]`, if they are a non-empty
/// run of digits whose number is at most `bound`.
fn digits_up_to(cs: &Vec<char>, from: usize, to: usize, bound: u64) -> (r: Option<u64>)
    requires
        from <= to <= cs.len(),
    ensures
        r == (if is_digits(cs@.subrange(from as int, to as int)) && digits_value(
            cs@.subrange(from as int, to as int),
        ) <= bound {
            Some(digits_value(cs@.subrange(from as int, to as int)) as u64)
        } else {
            None::<u64>
        }),
        r is Some ==> r->0 as int == digits_value(cs@.subrange(from as int, to as int)),
{
    let ghost t = cs@.subrange(from as int, to as int);
    if from == to {
        return None;
    }
    let mut i: usize = from;
    while i < to
        invariant
            from <= i <= to <= cs.len(),
            t == cs@.subrange(from as int, to as int),
            forall|k: int| 0 <= k < i - from ==> is_digit(#[trigger] t[k]),
        decreases to - i,
    {
        if !('0' <= cs[i] && cs[i] <= '9') {
            assert(!is_digit(t[i - from]));
            return None;
        }
        i = i + 1;
    }
    let mut acc: u64 = 0;
    let mut i: usize = from;
    while i < to
        invariant
            from <= i <= to <= cs.len(),
            t == cs@.subrange(from as int, to as int),
            is_digits(t),
            acc == digits_value(t.take(i - from)),
            acc <= bound,
        decreases to - i,
    {
        assert(t[i - from] == cs@[i as int]);
        assert(is_digit(t[i - from]));
        let d = (cs[i] as u32 - '0' as u32) as u64;
        proof {
            assert(t.take(i - from + 1).drop_last() =~= t.take(i - from));
            assert(t.take(i - from + 1).last() == cs@[i as int]);
        }
        if d > bound {
            proof {
                lemma_digits_value_grows(t, i - from + 1, t.len() as int);
                assert(t.take(t.len() as int) =~= t);
            }
            return None;
        }
        if acc > (bound - d) / 10 {
            proof {
                assert(acc * 10 + d > bound) by (nonlinear_arith)
                    requires
                        acc > (bound - d) / 10,
                        d <= bound,
                ;
                lemma_digits_value_grows(t, i - from + 1, t.len() as int);
                assert(t.take(t.len() as int) =~= t);
            }
            return None;
        }
        proof {
            assert(acc * 10 + d <= bound) by (nonlinear_arith)
                requires
                    acc <= (bound - d) / 10,
                    d <= bound,
            ;
        }
        acc = acc * 10 + d;
        i = i + 1;
    }
    assert(t.take(t.len() as int) =~= t);
    Some(acc)
}

/// The integer that `s` writes in decimal, with an optional sign, as
/// `str::parse::<i64>` reads it.
pub open spec fn decimal_value(s: Seq<char>) -> Option<int> {
    if s.len() > 0 && s[0] == '-' && is_digits(s.drop_first()) {
        Some(-digits_value(s.drop_first()))
    } else if s.len() > 0 && s[0] == '+' && is_digits(s.drop_first()) {
        Some(digits_value(s.drop_first()))
    } else if is_digits(s) {
        Some(digits_value(s))
    } else {
        None
    }
}

pub open spec fn fits_i64(v: Option<int>) -> Option<i64> {
    match v {
        Some(n) => if i64::MIN <= n <= i64::MAX {
            Some(n as i64)
        } else {
            None
        },
        None => None,
    }
}

/// Reads a decimal integer, with an optional sign, that fits in `i64`.
pub fn parse_i64(s: &str) -> (r: Option<i64>)
    ensures
        r == fits_i64(decimal_value(s@)),
{
    let cs = chars_of(s);
    let n = cs.len();
    if n > 0 && (cs[0] == '-' || cs[0] == '+') {
        proof {
            assert(cs@.subrange(1, n as int) =~= s@.drop_first());
            assert(!is_digit(s@[0]));
        }
        if cs[0] == '-' {
            match digits_up_to(&cs, 1, n, 9_223_372_036_854_775_808) {
                Some(v) => {
                    Some((0 - v as i128) as i64)
                },
                None => None,
            }
        } else {
            match digits_up_to(&cs, 1, n, 9_223_372_036_854_775_807) {
                Some(v) => Some(v as i64),
                None => None,
            }
        }
    } else {
        proof {
            assert(cs@.subrange(0, n as int) =~= s@);
        }
        match digits_up_to(&cs, 0, n, 9_223_372_036_854_775_807) {
            Some(v) => Some(v as i64),
            None => None,
        }
    }
}

/// The multiplier that a size unit stands for, in powers of 1024.
pub open spec fn unit_multiplier(c: char) -> Option<int> {
    if c == 'K' {
        Some(1024)
    } else if c == 'M' {
        Some(1024 * 1024 as int)
    } else if c == 'G' {
        Some(1024 * 1024 * 1024 as int)
    } else if c == 'T' {
        Some(1024 * 1024 * 1024 * 1024 as int)
    } else {
        None
    }
}

/// The size that `s` writes: decimal digits, followed by an optional unit
/// `K`, `M`, `G` or `T`.
pub open spec fn readable_value(s: Seq<char>) -> Option<int> {
    if s.len() > 0 && unit_multiplier(s.last()) is Some && is_digits(s.drop_last()) {
        Some(digits_value(s.drop_last()) * unit_multiplier(s.last())->0)
    } else if is_digits(s) {
        Some(digits_value(s))
    } else {
        None
    }
}

fn unit_of(c: char) -> (r: Option<u64>)
    ensures
        r == (match unit_multiplier(c) {
            Some(m) => Some(m as u64),
            None => None::<u64>,
        }),
{
    if c == 'K' {
        Some(1024)
    } else if c == 'M' {
        Some(1024 * 1024)
    } else if c == 'G' {
        Some(1024 * 1024 * 1024)
    } else if c == 'T' {
        Some(1024 * 1024 * 1024 * 1024)
    } else {
        None
    }
}

/// Reads a size written as digits with an optional unit suffix, where the
/// size fits in `i64`.
pub fn parse_readable_int(s: &str) -> (r: Option<i64>)
    ensures
        r == fits_i64(readable_value(s@)),
{
    let cs = chars_of(s);
    let n = cs.len();
    if n > 0 {
        match unit_of(cs[n - 1]) {
            Some(m) => {
                proof {
                    assert(cs@.subrange(0, n - 1) =~= s@.drop_last());
                }
                let bound: u64 = 9_223_372_036_854_775_807 / m;
                match digits_up_to(&cs, 0, n - 1, 9_223_372_036_854_775_807) {
                    Some(v) => {
                        if v <= bound {
                            proof {
                                assert(v * m <= 9_223_372_036_854_775_807) by (nonlinear_arith)
                                    requires
                                        v <= bound,
                                        bound as int == 9_223_372_036_854_775_807int / (m as int),
                                        m > 0,
                                ;
                            }
                            return Some((v * m) as i64);
                        } else {
                            proof {
                                assert(v * m > 9_223_372_036_854_775_807) by (nonlinear_arith)
                                    requires
                                        v > bound,
                                        bound as int == 9_223_372_036_854_775_807int / (m as int),
                                        m > 0,
                                ;
                            }
                            return None;
                        }
                    },
                    None => {
                        proof {
                            assert(!is_digit(s@[n - 1]));
                            if is_digits(s@.drop_last()) {
                                let dv = digits_value(s@.drop_last());
                                assert(dv * m > 9_223_372_036_854_775_807) by (nonlinear_arith)
                                    requires
                                        dv > 9_223_372_036_854_775_807,
                                        m >= 1,
                                ;
                            }
                        }
                        return None;
                    },
                }
            },
            None => {},
        }
    }
    proof {
        assert(cs@.subrange(0, n as int) =~= s@);
    }
    match digits_up_to(&cs, 0, n, 9_223_372_036_854_775_807) {
        Some(v) => Some(v as i64),
        None => None,
    }
}

/// An integer option's text: a decimal integer, or else a size with a unit.
pub open spec fn int_option_value(s: Seq<char>) -> Option<i64> {
    match fits_i64(decimal_value(s)) {
        Some(v) => Some(v),
        None => fits_i64(readable_value(s)),
    }
}

/// Reads an integer option's text: a decimal integer, or else a size with a
/// unit suffix.
pub fn parse_int_option(s: &str) -> (r: Option<i64>)
    ensures
        r == int_option_value(s@),
{
    match parse_i64(s) {
        Some(v) => Some(v),
        None => parse_readable_int(s),
    }
}

/// A network endpoint `host:port`: exactly one colon, a non-empty host and a
/// decimal port below 65536.
pub open spec fn valid_addr(s: Seq<char>) -> bool {
    let parts = split_seq(s, ':');
    &&& parts.len() == 2
    &&& parts[0].len() > 0
    &&& is_digits(parts[1])
    &&& digits_value(parts[1]) <= 65535
}

/// Whether `addr` is a network endpoint `host:port`.
pub fn check_addr(addr: &str) -> (r: bool)
    ensures
        r == valid_addr(addr@),
{
    let parts = split_on(addr, ':');
    if parts.len() != 2 {
        return false;
    }
    assert(parts@[0]@ == split_seq(addr@, ':')[0]);
    assert(parts@[1]@ == split_seq(addr@, ':')[1]);
    if parts[0].unicode_len() == 0 {
        return false;
    }
    let port = chars_of(parts[1].as_str());
    let n = port.len();
    assert(port@.subrange(0, n as int) =~= port@);
    digits_up_to(&port, 0, n, 65535).is_some()
}


/// Whether two texts are the same.
pub fn same_text(a: &str, b: &str) -> (r: bool)
    ensures
        r == (a@ == b@),
{
    let n = a.unicode_len();
    if n != b.unicode_len() {
        return false;
    }
    for i in 0..n
        invariant
            n == a@.len(),
            n == b@.len(),
            a@.take(i as int) == b@.take(i as int),
    {
        if a.get_char(i) != b.get_char(i) {
            assert(a@[i as int] != b@[i as int]);
            return false;
        }
        assert(a@.take(i as int + 1) =~= a@.take(i as int).push(a@[i as int]));
        assert(b@.take(i as int + 1) =~= b@.take(i as int).push(b@[i as int]));
    }
    assert(a@.take(n as int) =~= a@);
    assert(b@.take(n as int) =~= b@);
    true
}


pub open spec fn digit_char(d: nat) -> char {
    if d == 0 {
        '0'
    } else if d == 1 {
        '1'
    } else if d == 2 {
        '2'
    } else if d == 3 {
        '3'
    } else if d == 4 {
        '4'
    } else if d == 5 {
        '5'
    } else if d == 6 {
        '6'
    } else if d == 7 {
        '7'
    } else if d == 8 {
        '8'
    } else {
        '9'
    }
}

/// The decimal digits of `n`, without leading zeros.
pub open spec fn decimal_digits(n: nat) -> Seq<char>
    decreases n,
{
    if n < 10 {
        seq![digit_char(n)]
    } else {
        decimal_digits(n / 10).push(digit_char(n % 10))
    }
}

fn digit_text(d: u64) -> (r: &'static str)
    requires
        d < 10,
    ensures
        r@ == seq![digit_char(d as nat)],
{
    proof {
        reveal_strlit("0");
        reveal_strlit("1");
        reveal_strlit("2");
        reveal_strlit("3");
        reveal_strlit("4");
        reveal_strlit("5");
        reveal_strlit("6");
        reveal_strlit("7");
        reveal_strlit("8");
        reveal_strlit("9");
    }
    let r = if d == 0 {
        "0"
    } else if d == 1 {
        "1"
    } else if d == 2 {
        "2"
    } else if d == 3 {
        "3"
    } else if d == 4 {
        "4"
    } else if d == 5 {
        "5"
    } else if d == 6 {
        "6"
    } else if d == 7 {
        "7"
    } else if d == 8 {
        "8"
    } else {
        "9"
    };
    assert(r@ =~= seq![digit_char(d as nat)]);
    r
}

/// `n` written in decimal.
pub fn decimal_text(n: u64) -> (r: String)
    ensures
        r@ == decimal_digits(n as nat),
    decreases n,
{
    if n < 10 {
        digit_text(n).to_owned()
    } else {
        let r = decimal_text(n / 10).concat(digit_text(n % 10));
        assert(r@ =~= decimal_digits(n as nat));
        r
    }
}

} // verus!
