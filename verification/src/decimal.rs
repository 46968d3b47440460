//! Decimal text for the numbers that cross a command line: port numbers and
//! process-group ids.

use vstd::prelude::*;
use vstd::string::*;

verus! {

/// Whether `c` is one of `0` to `9`.
pub open spec fn is_digit(c: char) -> bool {
    '0' <= c <= '9'
}

/// The digit character for `d`, which is below ten.
pub open spec fn digit_char(d: nat) -> char {
    if d == 0 {
        '0'
    } else if d == 1 {
        '1'
    } else if d == 2 {
        '2'
    } else if d == 3 {
        '3'
    } else if d == 4 {
        '4'
    } else if d == 5 {
        '5'
    } else if d == 6 {
        '6'
    } else if d == 7 {
        '7'
    } else if d == 8 {
        '8'
    } else {
        '9'
    }
}

/// The digit that `c` stands for.
pub open spec fn digit_value(c: char) -> nat {
    (c as nat - '0' as nat) as nat
}

/// Shortest decimal numeral of `n`: no sign, no leading zero but for zero
/// itself.
pub open spec fn decimal(n: nat) -> Seq<char>
    decreases n,
{
    if n < 10 {
        seq![digit_char(n)]
    } else {
        decimal(n / 10).push(digit_char(n % 10))
    }
}

/// Whether every character of `s` is a digit.
pub open spec fn all_digits(s: Seq<char>) -> bool {
    forall|i: int| 0 <= i < s.len() ==> is_digit(#[trigger] s[i])
}

/// The number that the digits of `s` spell, most significant first.
pub open spec fn digits_value(s: Seq<char>) -> nat
    decreases s.len(),
{
    if s.len() == 0 {
        0
    } else {
        10 * digits_value(s.drop_last()) + digit_value(s.last())
    }
}

/// `s` without one leading plus sign, if it has one.
pub open spec fn unsigned_body(s: Seq<char>) -> Seq<char> {
    if s.len() > 0 && s[0] == '+' {
        s.subrange(1, s.len() as int)
    } else {
        s
    }
}

/// The 16-bit number that `s` denotes: an optional plus sign, then at least
/// one digit and nothing else, with a value that fits. Leading zeros are
/// allowed; blanks, a minus sign and any other character are not.
pub open spec fn parse_u16(s: Seq<char>) -> Option<u16> {
    let body = unsigned_body(s);
    if body.len() > 0 && all_digits(body) && digits_value(body) <= u16::MAX {
        Some(digits_value(body) as u16)
    } else {
        None
    }
}

/// A longer numeral is worth at least as much as any of its prefixes.
pub proof fn lemma_digits_value_monotone(s: Seq<char>, k: int)
    requires
        0 <= k <= s.len(),
    ensures
        digits_value(s.subrange(0, k)) <= digits_value(s),
    decreases s.len(),
{
    if k == s.len() {
        assert(s.subrange(0, k) =~= s);
    } else {
        lemma_digits_value_monotone(s.drop_last(), k);
        assert(s.drop_last().subrange(0, k) =~= s.subrange(0, k));
    }
}

/// The numeral of `n` consists of digits and spells `n`.
pub proof fn lemma_decimal_spells(n: nat)
    ensures
        decimal(n).len() > 0,
        all_digits(decimal(n)),
        digits_value(decimal(n)) == n,
        decimal(n)[0] != '+',
    decreases n,
{
    if n < 10 {
        let s = decimal(n);
        assert(s.drop_last() =~= Seq::<char>::empty());
        assert(digits_value(s.drop_last()) == 0);
        assert(digits_value(s) == 10 * digits_value(s.drop_last()) + digit_value(s.last()));
    } else {
        lemma_decimal_spells(n / 10);
        let s = decimal(n);
        assert(s.drop_last() =~= decimal(n / 10));
        assert(digits_value(s) == 10 * digits_value(s.drop_last()) + digit_value(s.last()));
        assert(s[0] == decimal(n / 10)[0]);
    }
}

/// Writing a 16-bit number and reading it back gives the number.
pub proof fn lemma_parse_inverts_decimal(n: u16)
    ensures
        parse_u16(decimal(n as nat)) == Some(n),
{
    lemma_decimal_spells(n as nat);
}

/// The one-character text of the digit `d`.
fn digit_str(d: u64) -> (text: &'static str)
    requires
        d < 10,
    ensures
        text@ == seq![digit_char(d as nat)],
{
    proof {
        reveal_strlit("0");
        reveal_strlit("1");
        reveal_strlit("2");
        reveal_strlit("3");
        reveal_strlit("4");
        reveal_strlit("5");
        reveal_strlit("6");
        reveal_strlit("7");
        reveal_strlit("8");
        reveal_strlit("9");
    }
    let text = match d {
        0 => "0",
        1 => "1",
        2 => "2",
        3 => "3",
        4 => "4",
        5 => "5",
        6 => "6",
        7 => "7",
        8 => "8",
        _ => "9",
    };
    assert(text@ =~= seq![digit_char(d as nat)]);
    text
}

/// Writes `n` as its shortest decimal numeral.
pub fn format_decimal(n: u64) -> (text: String)
    ensures
        text@ == decimal(n as nat),
    decreases n,
{
    if n < 10 {
        digit_str(n).to_owned()
    } else {
        let mut text = format_decimal(n / 10);
        text.append(digit_str(n % 10));
        assert(text@ =~= decimal((n / 10) as nat).push(digit_char((n % 10) as nat)));
        text
    }
}

/// Reads a 16-bit number from `text`, or `None` if `text` is not exactly a
/// numeral that fits.
pub fn parse_decimal_u16(text: &str) -> (number: Option<u16>)
    ensures
        number == parse_u16(text@),
{
    broadcast use vstd::string::group_string_axioms;

    let ghost body = unsigned_body(text@);
    let ghost skip: int = text@.len() - body.len();
    let mut value: u32 = 0;
    let mut started = false;
    let mut any_digit = false;
    let mut valid = true;
    for c in it: text.chars()
        invariant
            it.seq() == text@,
            body == unsigned_body(text@),
            skip == text@.len() - body.len(),
            started == (it.index() > 0),
            valid ==> {
                let seen = if it.index() >= skip {
                    it.index() - skip
                } else {
                    0
                };
                &&& all_digits(body.subrange(0, seen))
                &&& value == digits_value(body.subrange(0, seen))
                &&& value <= u16::MAX
                &&& any_digit == (seen > 0)
            },
            !valid ==> parse_u16(text@) is None,
    {
        let ghost at = it.index();
        if valid {
            if !started && c == '+' {
                assert(skip == 1);
            } else {
                assert(at >= skip && c == body[at - skip]);
                let ghost seen = at - skip;
                let ghost longer = body.subrange(0, seen + 1);
                if '0' <= c && c <= '9' {
                    let digit: u32 = (c as u32) - 48;
                    let next: u32 = value * 10 + digit;
                    proof {
                        assert(longer.drop_last() =~= body.subrange(0, seen));
                        assert(digits_value(longer) == next);
                        assert forall|i: int| 0 <= i < longer.len() implies is_digit(
                            #[trigger] longer[i],
                        ) by {
                            if i < seen {
                                assert(body.subrange(0, seen)[i] == longer[i]);
                            }
                        }
                        lemma_digits_value_monotone(body, seen + 1);
                    }
                    if next > 65535 {
                        valid = false;
                    } else {
                        value = next;
                        any_digit = true;
                    }
                } else {
                    assert(!is_digit(body[seen]));
                    valid = false;
                }
            }
        }
        started = true;
    }
    if valid && any_digit {
        assert(body.subrange(0, body.len() as int) =~= body);
        Some(value as u16)
    } else {
        assert(valid ==> body.len() == 0);
        None
    }
}

/// Whether two texts hold the same characters.
pub fn str_eq(a: &str, b: &str) -> (same: bool)
    ensures
        same == (a@ == b@),
{
    a.to_owned() == b.to_owned()
}

} // verus!
