//! Unsigned numbers as decimal text: writing them and reading them back.

use vstd::prelude::*;

verus! {

/// Whether `c` is one of the ten decimal digits.
pub open spec fn is_digit(c: char) -> bool {
    '0' <= c && c <= '9'
}

/// The number that the digit `c` stands for.
pub open spec fn digit_value(c: char) -> nat
    recommends
        is_digit(c),
{
    (c as u32 - '0' as u32) as nat
}

/// The digit that stands for `d`.
pub open spec fn digit_char(d: nat) -> char
    recommends
        d < 10,
{
    if d == 0 {
        '0'
    } else if d == 1 {
        '1'
    } else if d == 2 {
        '2'
    } else if d == 3 {
        '3'
    } else if d == 4 {
        '4'
    } else if d == 5 {
        '5'
    } else if d == 6 {
        '6'
    } else if d == 7 {
        '7'
    } else if d == 8 {
        '8'
    } else {
        '9'
    }
}

/// The decimal numeral of `n`: digits only, and no leading zero except for
/// zero itself.
pub open spec fn decimal(n: nat) -> Seq<char>
    decreases n,
{
    if n < 10 {
        seq![digit_char(n)]
    } else {
        decimal(n / 10).push(digit_char(n % 10))
    }
}

/// Whether every character of `s` is a decimal digit.
pub open spec fn all_digits(s: Seq<char>) -> bool {
    forall|i: int| 0 <= i < s.len() ==> is_digit(#[trigger] s[i])
}

/// The number that a run of digits denotes, the first digit weighing most.
pub open spec fn digits_value(s: Seq<char>) -> nat
    decreases s.len(),
{
    if s.len() == 0 {
        0
    } else {
        digits_value(s.drop_last()) * 10 + digit_value(s.last())
    }
}

/// The text without the one plus sign that may come first.
pub open spec fn unsigned_part(s: Seq<char>) -> Seq<char> {
    if s.len() > 0 && s[0] == '+' {
        s.skip(1)
    } else {
        s
    }
}

/// The number that `s` denotes: an optional plus sign and then one or more
/// digits, with nothing before, between or after. `None` for any other text.
pub open spec fn numeral_value(s: Seq<char>) -> Option<nat> {
    let digits = unsigned_part(s);
    if digits.len() > 0 && all_digits(digits) {
        Some(digits_value(digits))
    } else {
        None
    }
}

/// The number that `s` denotes where it fits a `usize`, else `None`.
pub open spec fn parsed_usize(s: Seq<char>) -> Option<usize> {
    match numeral_value(s) {
        Some(n) => if n <= usize::MAX {
            Some(n as usize)
        } else {
            None
        },
        None => None,
    }
}

/// Appending a digit multiplies the value by ten and adds the digit.
pub proof fn lemma_value_of_push(s: Seq<char>, c: char)
    ensures
        digits_value(s.push(c)) == digits_value(s) * 10 + digit_value(c),
{
    assert(s.push(c).drop_last() =~= s);
}

/// A run of digits is worth at least as much as any of its beginnings.
pub proof fn lemma_value_grows(s: Seq<char>, k: int)
    requires
        0 <= k <= s.len(),
    ensures
        digits_value(s.take(k)) <= digits_value(s),
    decreases s.len() - k,
{
    if k == s.len() {
        assert(s.take(k) =~= s);
    } else {
        lemma_value_grows(s.drop_last(), k);
        assert(s.drop_last().take(k) =~= s.take(k));
    }
}

/// The decimal numeral of a number reads back as that number.
pub proof fn lemma_decimal_reads_back(n: nat)
    ensures
        decimal(n).len() > 0,
        all_digits(decimal(n)),
        digits_value(decimal(n)) == n,
        numeral_value(decimal(n)) == Some(n),
    decreases n,
{
    if n < 10 {
        let s = decimal(n);
        assert(digits_value(s.drop_last()) == 0);
    } else {
        lemma_decimal_reads_back(n / 10);
        lemma_value_of_push(decimal(n / 10), digit_char(n % 10));
    }
}

/// The characters of a string, in order.
pub fn chars_of(text: &str) -> (chars: Vec<char>)
    ensures
        chars@ == text@,
{
    let mut chars: Vec<char> = Vec::new();
    for c in it: text.chars()
        invariant
            it.seq() == text@,
            chars@ == it.seq().take(it.index() as int),
    {
        chars.push(c);
    }
    chars
}

/// One digit as a string.
fn digit_text(d: usize) -> (text: &'static str)
    requires
        d < 10,
    ensures
        text@ == seq![digit_char(d as nat)],
{
    proof {
        reveal_strlit("0");
        reveal_strlit("1");
        reveal_strlit("2");
        reveal_strlit("3");
        reveal_strlit("4");
        reveal_strlit("5");
        reveal_strlit("6");
        reveal_strlit("7");
        reveal_strlit("8");
        reveal_strlit("9");
    }
    let text = if d == 0 {
        "0"
    } else if d == 1 {
        "1"
    } else if d == 2 {
        "2"
    } else if d == 3 {
        "3"
    } else if d == 4 {
        "4"
    } else if d == 5 {
        "5"
    } else if d == 6 {
        "6"
    } else if d == 7 {
        "7"
    } else if d == 8 {
        "8"
    } else {
        "9"
    };
    text
}

/// Writes the decimal numeral of `n` at the end of `out`.
pub fn push_decimal(out: &mut String, n: usize)
    ensures
        final(out)@ == old(out)@ + decimal(n as nat),
    decreases n,
{
    if n >= 10 {
        push_decimal(out, n / 10);
    }
    out.append(digit_text(n % 10));
}

/// The decimal numeral of `n`.
pub fn decimal_text(n: usize) -> (text: String)
    ensures
        text@ == decimal(n as nat),
{
    let mut text = String::new();
    push_decimal(&mut text, n);
    text
}

/// Reads the first `end` characters as a number.
pub(crate) fn parse_prefix(chars: &Vec<char>, end: usize) -> (value: Option<usize>)
    requires
        end <= chars.len(),
    ensures
        value == parsed_usize(chars@.take(end as int)),
{
    let start: usize = if end > 0 && chars[0] == '+' {
        1
    } else {
        0
    };
    let ghost digits = unsigned_part(chars@.take(end as int));
    if start == end {
        return None;
    }
    let mut total: usize = 0;
    let mut i: usize = start;
    while i < end
        invariant
            start <= i <= end <= chars.len(),
            start < end,
            digits == chars@.subrange(start as int, end as int),
            digits == unsigned_part(chars@.take(end as int)),
            all_digits(digits.take(i - start)),
            total == digits_value(digits.take(i - start)),
        decreases end - i,
    {
        let c = chars[i];
        assert(c == digits[i - start]);
        if !('0' <= c && c <= '9') {
            return None;
        }
        let d: usize = (c as u32 - '0' as u32) as usize;
        proof {
            assert(digits.take(i - start + 1) =~= digits.take(i - start).push(c));
            lemma_value_of_push(digits.take(i - start), c);
        }
        if total > (usize::MAX - d) / 10 {
            proof {
                if all_digits(digits) {
                    lemma_value_grows(digits, i - start + 1);
                }
            }
            return None;
        }
        total = total * 10 + d;
        i += 1;
    }
    assert(digits.take(i - start) =~= digits);
    Some(total)
}

/// Reads a whole string as a number: an optional plus sign, then digits.
/// Any other character, an empty run of digits, or a number too large for a
/// `usize` gives `None`.
pub fn parse_usize(text: &str) -> (value: Option<usize>)
    ensures
        value == parsed_usize(text@),
{
    let chars = chars_of(text);
    assert(chars@.take(chars.len() as int) =~= text@);
    parse_prefix(&chars, chars.len())
}

} // verus!
