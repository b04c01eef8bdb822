//! Choosing one entry of a numbered listing: the listing shows `1: name`,
//! `2: name`, ..., and the user answers with one of the numbers.

use vstd::prelude::*;
use vstd::string::StringExecFns;


verus! {

/// An ASCII decimal digit.
pub open spec fn is_digit(c: char) -> bool {
    '0' <= c <= '9'
}

/// The value of a decimal digit.
pub open spec fn digit_value(c: char) -> nat {
    (c as int - '0' as int) as nat
}

/// The decimal digit of a value below ten.
pub open spec fn digit_char(d: nat) -> char {
    (d + '0' as int) as char
}

/// Every character of `s` is a decimal digit.
pub open spec fn all_digits(s: Seq<char>) -> bool {
    forall|k: int| 0 <= k < s.len() ==> is_digit(#[trigger] s[k])
}

/// The number that a string of decimal digits denotes.
pub open spec fn digits_value(s: Seq<char>) -> nat
    decreases s.len(),
{
    if s.len() == 0 {
        0
    } else {
        digits_value(s.drop_last()) * 10 + digit_value(s.last())
    }
}

/// The digits of an unsigned number as `usize::from_str` reads them: one
/// leading `'+'` is allowed.
pub open spec fn unsigned_digits(s: Seq<char>) -> Seq<char> {
    if s.len() > 0 && s[0] == '+' {
        s.drop_first()
    } else {
        s
    }
}

/// What `usize::from_str` accepts: an optional `'+'` and at least one digit,
/// all digits, denoting a number that fits in `usize`.
pub open spec fn parse_usize_spec(s: Seq<char>) -> Option<nat> {
    let d = unsigned_digits(s);
    if d.len() > 0 && all_digits(d) && digits_value(d) <= usize::MAX {
        Some(digits_value(d))
    } else {
        None
    }
}

/// `n` written in decimal, without leading zeros.
pub open spec fn decimal(n: nat) -> Seq<char>
    decreases n,
{
    if n < 10 {
        seq![digit_char(n)]
    } else {
        decimal(n / 10).push(digit_char(n % 10))
    }
}

/// Why an answer picks no entry.
#[derive(Clone, Copy, Debug, PartialEq, Eq, Structural)]
pub enum SelectionError {
    /// The answer is not a number.
    InvalidInput,
    /// The number is 0 or larger than the number of entries.
    InvalidNumber,
}

/// The entry that the answer `typed` picks from `entries`.
pub open spec fn select_spec(entries: Seq<Seq<char>>, typed: Seq<char>) -> Result<
    Seq<char>,
    SelectionError,
> {
    match parse_usize_spec(typed) {
        None => Err(SelectionError::InvalidInput),
        Some(n) => if n > entries.len() || n == 0 {
            Err(SelectionError::InvalidNumber)
        } else {
            Ok(entries[n - 1])
        },
    }
}

/// The views of a list of strings.
pub open spec fn string_views(v: Seq<String>) -> Seq<Seq<char>> {
    v.map_values(|s: String| s@)
}

/// The line that shows entry `name` under the number `index`.
pub open spec fn menu_line_spec(index: nat, name: Seq<char>) -> Seq<char> {
    decimal(index) + ": "@ + name
}

/// The value of a digit string is at least that of each of its prefixes.
pub proof fn lemma_digits_value_prefix(d: Seq<char>, j: int)
    requires
        0 <= j <= d.len(),
    ensures
        digits_value(d.take(j)) <= digits_value(d),
    decreases d.len(),
{
    if j < d.len() {
        lemma_digits_value_prefix(d.drop_last(), j);
        assert(d.drop_last().take(j) =~= d.take(j));
    } else {
        assert(d.take(j) =~= d);
    }
}

/// `usize::from_str`: the number that `s` denotes, or `None` when `s` is not
/// an optional `'+'` followed by decimal digits, or the number does not fit.
pub fn parse_usize(s: &str) -> (r: Option<usize>)
    ensures
        match r {
            Some(n) => parse_usize_spec(s@) == Some(n as nat),
            None => parse_usize_spec(s@) is None,
        },
{
    let len = s.unicode_len();
    let start: usize = if len > 0 && s.get_char(0) == '+' {
        1
    } else {
        0
    };
    let ghost d = unsigned_digits(s@);
    proof {
        if start == 1 {
            assert(d =~= s@.subrange(1, len as int));
        } else {
            assert(d =~= s@.subrange(0, len as int));
        }
    }
    if start == len {
        return None;
    }
    let mut acc: usize = 0;
    let mut i: usize = start;
    assert(d.take(0) =~= Seq::<char>::empty());
    while i < len
        invariant
            start <= i <= len,
            len == s@.len(),
            d == s@.subrange(start as int, len as int),
            d == unsigned_digits(s@),
            all_digits(d.take(i - start)),
            acc as nat == digits_value(d.take(i - start)),
        decreases len - i,
    {
        let c = s.get_char(i);
        let ghost j: int = i - start;
        assert(d[j] == c);
        if c < '0' || c > '9' {
            assert(!is_digit(d[j]));
            return None;
        }
        let digit: usize = (c as u32 - '0' as u32) as usize;
        proof {
            assert(d.take(j + 1).drop_last() =~= d.take(j));
            assert(d.take(j + 1).last() == c);
            lemma_digits_value_prefix(d, j + 1);
        }
        if acc > (usize::MAX - digit) / 10 {
            assert(acc * 10 + digit > usize::MAX) by (nonlinear_arith)
                requires
                    acc > (usize::MAX - digit) / 10,
                    digit <= 9,
            ;
            return None;
        }
        assert(acc * 10 + digit <= usize::MAX) by (nonlinear_arith)
            requires
                acc <= (usize::MAX - digit) / 10,
                digit <= 9,
        ;
        acc = acc * 10 + digit;
        i = i + 1;
        assert forall|k: int| 0 <= k < d.take(j + 1).len() implies is_digit(
            #[trigger] d.take(j + 1)[k],
        ) by {
            if k < j {
                assert(d.take(j + 1)[k] == d.take(j)[k]);
            }
        }
    }
    assert(d.take(len - start) =~= d);
    Some(acc)
}

/// The entry of `entries` that the answer `typed` picks: the answer must be
/// a number from 1 to the number of entries.
pub fn select_entry(entries: &Vec<String>, typed: &str) -> (r: Result<String, SelectionError>)
    ensures
        match r {
            Ok(e) => select_spec(string_views(entries@), typed@) == Ok::<
                Seq<char>,
                SelectionError,
            >(e@),
            Err(err) => select_spec(string_views(entries@), typed@) == Err::<
                Seq<char>,
                SelectionError,
            >(err),
        },
{
    let number = match parse_usize(typed) {
        Some(number) => number,
        None => return Err(SelectionError::InvalidInput),
    };
    if number > entries.len() || number == 0 {
        return Err(SelectionError::InvalidNumber);
    }
    Ok(entries[number - 1].clone())
}

/// A digit character denotes its own value.
pub proof fn lemma_digit_char(d: nat)
    requires
        d < 10,
    ensures
        is_digit(digit_char(d)),
        digit_value(digit_char(d)) == d,
{
}

/// The decimal writing of `n` is a non-empty string of digits denoting `n`.
pub proof fn lemma_decimal(n: nat)
    ensures
        decimal(n).len() > 0,
        all_digits(decimal(n)),
        digits_value(decimal(n)) == n,
    decreases n,
{
    if n < 10 {
        lemma_digit_char(n);
        assert(decimal(n).drop_last() =~= Seq::<char>::empty());
        assert(decimal(n).last() == digit_char(n));
        assert(digits_value(decimal(n).drop_last()) == 0);
        assert(digits_value(decimal(n)) == n);
    } else {
        lemma_decimal(n / 10);
        lemma_digit_char(n % 10);
        let d = decimal(n);
        assert(d.drop_last() =~= decimal(n / 10));
        assert(d.last() == digit_char(n % 10));
        assert(digits_value(d) == digits_value(decimal(n / 10)) * 10 + digit_value(digit_char(n % 10)));
        assert(n == (n / 10) * 10 + n % 10);
        assert(digits_value(d) == n);
        assert forall|k: int| 0 <= k < d.len() implies is_digit(#[trigger] d[k]) by {
            if k < d.len() - 1 {
                assert(d[k] == decimal(n / 10)[k]);
            }
        }
    }
}

/// Reading back the decimal writing of a number that fits in `usize` gives
/// that number.
pub proof fn lemma_parse_decimal(n: nat)
    requires
        n <= usize::MAX,
    ensures
        parse_usize_spec(decimal(n)) == Some(n),
{
    lemma_decimal(n);
    let d = decimal(n);
    assert(is_digit(d[0]));
    assert(unsigned_digits(d) == d);
}

/// The digit characters in order: the one at position `d` is that of `d`.
proof fn lemma_digit_table(d: nat)
    requires
        d < 10,
    ensures
        "0123456789"@.len() == 10,
        "0123456789"@.subrange(d as int, d + 1int) == seq![digit_char(d)],
{
    reveal_strlit("0123456789");
    let t = "0123456789"@;
    assert(t[d as int] == digit_char(d)) by {
        if d == 0 {
        } else if d == 1 {
        } else if d == 2 {
        } else if d == 3 {
        } else if d == 4 {
        } else if d == 5 {
        } else if d == 6 {
        } else if d == 7 {
        } else if d == 8 {
        } else {
        }
    }
    assert(t.subrange(d as int, d + 1int) =~= seq![digit_char(d)]);
}

/// Appends the decimal writing of `n` to `s`.
fn push_decimal(s: &mut String, n: usize)
    ensures
        final(s)@ == old(s)@ + decimal(n as nat),
    decreases n,
{
    if n >= 10 {
        push_decimal(s, n / 10);
    }
    let digit: usize = n % 10;
    let digits = "0123456789";
    proof {
        lemma_digit_table(digit as nat);
    }
    let ghost before = s@;
    s.append(digits.substring_char(digit, digit + 1));
    assert(before + seq![digit_char(digit as nat)] =~= old(s)@ + decimal(n as nat));
}

/// The line `<index>: <name>` that shows one entry of a listing.
pub fn menu_line(index: usize, name: &str) -> (r: String)
    ensures
        r@ == menu_line_spec(index as nat, name@),
{
    let mut line = String::new();
    push_decimal(&mut line, index);
    line.append(": ");
    line.append(name);
    assert(line@ =~= menu_line_spec(index as nat, name@));
    line
}

/// The listing of `names`, numbered from 1 in their order.
pub fn menu_lines(names: &Vec<String>) -> (r: Vec<String>)
    ensures
        r.len() == names.len(),
        forall|i: int|
            0 <= i < names.len() ==> (#[trigger] r[i])@ == menu_line_spec((i + 1) as nat, names[i]@),
{
    let mut lines: Vec<String> = Vec::new();
    let mut i: usize = 0;
    while i < names.len()
        invariant
            i <= names.len(),
            lines.len() == i,
            forall|k: int|
                0 <= k < i ==> (#[trigger] lines[k])@ == menu_line_spec((k + 1) as nat, names[k]@),
        decreases names.len() - i,
    {
        let line = menu_line(i + 1, names[i].as_str());
        lines.push(line);
        i = i + 1;
    }
    lines
}

/// Answering with the number that the listing shows beside an entry picks
/// that entry.
pub proof fn law_shown_number_selects(entries: Seq<Seq<char>>, i: int)
    requires
        0 <= i < entries.len(),
        entries.len() <= usize::MAX,
    ensures
        select_spec(entries, decimal((i + 1) as nat)) == Ok::<Seq<char>, SelectionError>(
            entries[i],
        ),
{
    lemma_parse_decimal((i + 1) as nat);
}

/// An answer picks an entry only when it is a number from 1 to the number of
/// entries, and then it picks the entry at that position (counting from 1);
/// a number outside that range is refused as an invalid number, and an answer
/// that is no number as invalid input.
pub proof fn law_selection_outcomes(entries: Seq<Seq<char>>, typed: Seq<char>, n: nat)
    ensures
        parse_usize_spec(typed) is None ==> select_spec(entries, typed) == Err::<
            Seq<char>,
            SelectionError,
        >(SelectionError::InvalidInput),
        parse_usize_spec(typed) == Some(n) && (n == 0 || n > entries.len()) ==> select_spec(
            entries,
            typed,
        ) == Err::<Seq<char>, SelectionError>(SelectionError::InvalidNumber),
        parse_usize_spec(typed) == Some(n) && 1 <= n <= entries.len() ==> select_spec(
            entries,
            typed,
        ) == Ok::<Seq<char>, SelectionError>(entries[n - 1]),
        select_spec(entries, typed) is Ok ==> parse_usize_spec(typed) is Some && 1
            <= parse_usize_spec(typed)->0 <= entries.len() && select_spec(entries, typed)->Ok_0
            == entries[parse_usize_spec(typed)->0 - 1],
{
}

} // verus!
