//! Reading a proxy port typed by the user: an optional `+` followed by
//! decimal digits, whose value fits in a `u64`.

use vstd::prelude::*;

verus! {

/// Why typed text is not a port number. The variants mirror the kinds of
/// error that reading an unsigned integer can give.
#[derive(Debug, PartialEq, Eq, Structural)]
pub enum PortParseError {
    /// Nothing was typed.
    Empty,
    /// A character that is not a decimal digit, or a lone sign.
    InvalidDigit,
    /// The number is larger than the largest `u64`.
    PosOverflow,
}

pub open spec fn is_digit(c: char) -> bool {
    '0' <= c && c <= '9'
}

pub open spec fn digit_value(c: char) -> int {
    c as int - '0' as int
}

/// Reads the decimal digits of `s` from the left, onto the value `acc` read
/// so far. The first character that is not a digit, or the first digit that
/// takes the value past `u64::MAX`, ends the reading with that error.
pub open spec fn read_digits(s: Seq<char>, acc: int) -> Result<int, PortParseError>
    decreases s.len(),
{
    if s.len() == 0 {
        Ok(acc)
    } else if !is_digit(s[0]) {
        Err(PortParseError::InvalidDigit)
    } else if acc * 10 + digit_value(s[0]) > u64::MAX {
        Err(PortParseError::PosOverflow)
    } else {
        read_digits(s.drop_first(), acc * 10 + digit_value(s[0]))
    }
}

/// The digits of `s`: all of it, or what follows a leading `+`.
pub open spec fn unsigned_digits(s: Seq<char>) -> Seq<char> {
    if s.len() > 0 && s[0] == '+' {
        s.drop_first()
    } else {
        s
    }
}

/// What reading `s` as an unsigned 64-bit number gives.
pub open spec fn port_value(s: Seq<char>) -> Result<u64, PortParseError> {
    if s.len() == 0 {
        Err(PortParseError::Empty)
    } else if unsigned_digits(s).len() == 0 {
        Err(PortParseError::InvalidDigit)
    } else {
        match read_digits(unsigned_digits(s), 0) {
            Ok(v) => Ok(v as u64),
            Err(e) => Err(e),
        }
    }
}

proof fn lemma_read_digits_bounded(s: Seq<char>, acc: int)
    requires
        0 <= acc <= u64::MAX,
    ensures
        read_digits(s, acc) matches Ok(v) ==> 0 <= v <= u64::MAX,
    decreases s.len(),
{
    if s.len() > 0 && is_digit(s[0]) && acc * 10 + digit_value(s[0]) <= u64::MAX {
        lemma_read_digits_bounded(s.drop_first(), acc * 10 + digit_value(s[0]));
    }
}

/// Reads `text` as a port number: an optional `+` and then one or more
/// decimal digits whose value is at most `u64::MAX`.
pub fn parse_port(text: &str) -> (r: Result<u64, PortParseError>)
    ensures
        r == port_value(text@),
{
    let n: usize = text.unicode_len();
    if n == 0 {
        return Err(PortParseError::Empty);
    }
    let mut i: usize = 0;
    if text.get_char(0) == '+' {
        if n == 1 {
            return Err(PortParseError::InvalidDigit);
        }
        i = 1;
    }
    let ghost digits = unsigned_digits(text@);
    assert(digits =~= text@.skip(i as int));
    let mut acc: u64 = 0;
    while i < n
        invariant
            n == text@.len(),
            1 <= n,
            0 <= i <= n,
            digits.len() > 0,
            digits == unsigned_digits(text@),
            read_digits(digits, 0) == read_digits(text@.skip(i as int), acc as int),
        decreases n - i,
    {
        let c = text.get_char(i);
        let ghost rest = text@.skip(i as int);
        assert(rest[0] == c);
        assert(rest.drop_first() =~= text@.skip(i + 1));
        if !('0' <= c && c <= '9') {
            return Err(PortParseError::InvalidDigit);
        }
        let d: u64 = ((c as u32) - ('0' as u32)) as u64;
        let scaled: u64 = match acc.checked_mul(10) {
            Some(v) => v,
            None => {
                return Err(PortParseError::PosOverflow);
            },
        };
        acc = match scaled.checked_add(d) {
            Some(v) => v,
            None => {
                return Err(PortParseError::PosOverflow);
            },
        };
        i = i + 1;
    }
    assert(text@.skip(i as int).len() == 0);
    proof {
        lemma_read_digits_bounded(digits, 0);
    }
    Ok(acc)
}

/// The decimal digit for `d`, which is below ten.
pub open spec fn digit_char(d: nat) -> char {
    if d == 0 {
        '0'
    } else if d == 1 {
        '1'
    } else if d == 2 {
        '2'
    } else if d == 3 {
        '3'
    } else if d == 4 {
        '4'
    } else if d == 5 {
        '5'
    } else if d == 6 {
        '6'
    } else if d == 7 {
        '7'
    } else if d == 8 {
        '8'
    } else {
        '9'
    }
}

/// The decimal writing of `n`, without leading zeros.
pub open spec fn decimal(n: nat) -> Seq<char>
    decreases n,
{
    if n < 10 {
        seq![digit_char(n)]
    } else {
        decimal(n / 10).push(digit_char(n % 10))
    }
}

proof fn lemma_read_digits_push(s: Seq<char>, c: char, acc: int)
    requires
        read_digits(s, acc) is Ok,
    ensures
        read_digits(s.push(c), acc) == read_digits(seq![c], read_digits(s, acc)->Ok_0),
    decreases s.len(),
{
    if s.len() == 0 {
        assert(s.push(c) =~= seq![c]);
    } else {
        let next: int = acc * 10 + digit_value(s[0]);
        assert(s.push(c)[0] == s[0]);
        assert(s.push(c).drop_first() =~= s.drop_first().push(c));
        lemma_read_digits_push(s.drop_first(), c, next);
    }
}

proof fn lemma_digit_char(d: nat)
    requires
        d < 10,
    ensures
        is_digit(digit_char(d)),
        digit_value(digit_char(d)) == d,
{
}

proof fn lemma_read_one_digit(d: nat, acc: int)
    requires
        d < 10,
        0 <= acc,
        acc * 10 + d <= u64::MAX,
    ensures
        read_digits(seq![digit_char(d)], acc) == Ok::<int, PortParseError>(acc * 10 + d),
{
    lemma_digit_char(d);
    let one = seq![digit_char(d)];
    assert(one.drop_first() =~= Seq::<char>::empty());
    assert(one[0] == digit_char(d));
    assert(read_digits(Seq::<char>::empty(), acc * 10 + d) == Ok::<int, PortParseError>(acc * 10 + d));
}

proof fn lemma_read_decimal(n: nat)
    requires
        n <= u64::MAX,
    ensures
        read_digits(decimal(n), 0) == Ok::<int, PortParseError>(n as int),
        decimal(n).len() > 0,
        is_digit(decimal(n)[0]),
    decreases n,
{
    if n < 10 {
        lemma_read_one_digit(n, 0);
        lemma_digit_char(n);
    } else {
        let q: nat = n / 10;
        let d: nat = n % 10;
        assert(q * 10 + d == n);
        lemma_read_decimal(q);
        lemma_read_digits_push(decimal(q), digit_char(d), 0);
        lemma_read_one_digit(d as nat, q as int);
        assert(decimal(n)[0] == decimal(q)[0]);
    }
}

/// Every port number, written in decimal, reads back as itself, and so
/// does its writing after a `+`.
pub proof fn law_decimal_reads_back(n: u64)
    ensures
        port_value(decimal(n as nat)) == Ok::<u64, PortParseError>(n),
        port_value(seq!['+'] + decimal(n as nat)) == Ok::<u64, PortParseError>(n),
{
    lemma_read_decimal(n as nat);
    let s = decimal(n as nat);
    assert(unsigned_digits(s) == s);
    let t = seq!['+'] + s;
    assert(t[0] == '+');
    assert(unsigned_digits(t) =~= s);
}

} // verus!
