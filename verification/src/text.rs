//! Small verified operations on text: comparison, decimal numerals and
//! trimming.

use vstd::prelude::*;

verus! {

/// Tells whether two pieces of text hold the same characters.
pub fn same_text(a: &str, b: &str) -> (same: bool)
    ensures
        same == (a@ == b@),
{
    let left = String::from_str(a);
    let right = String::from_str(b);
    left == right
}

/// The numeral of one decimal digit.
pub open spec fn digit(d: nat) -> Seq<char> {
    if d == 0 {
        "0"@
    } else if d == 1 {
        "1"@
    } else if d == 2 {
        "2"@
    } else if d == 3 {
        "3"@
    } else if d == 4 {
        "4"@
    } else if d == 5 {
        "5"@
    } else if d == 6 {
        "6"@
    } else if d == 7 {
        "7"@
    } else if d == 8 {
        "8"@
    } else {
        "9"@
    }
}

/// The decimal numeral of a natural number, without leading zeros.
pub open spec fn decimal(n: nat) -> Seq<char>
    decreases n,
{
    if n < 10 {
        digit(n)
    } else {
        decimal(n / 10) + digit(n % 10)
    }
}

/// Tells whether a character is one of the ten decimal digits.
pub open spec fn is_digit(c: char) -> bool {
    '0' <= c <= '9'
}

/// The number that a numeral of decimal digits stands for.
pub open spec fn numeral_value(s: Seq<char>) -> int
    decreases s.len(),
{
    if s.len() == 0 {
        0
    } else {
        10 * numeral_value(s.drop_last()) + (s.last() as int - '0' as int)
    }
}

/// The numeral of a digit is the one character that stands for it.
proof fn lemma_digit(d: nat)
    requires
        d < 10,
    ensures
        digit(d).len() == 1,
        digit(d)[0] as int == '0' as int + d,
{
    reveal_strlit("0");
    reveal_strlit("1");
    reveal_strlit("2");
    reveal_strlit("3");
    reveal_strlit("4");
    reveal_strlit("5");
    reveal_strlit("6");
    reveal_strlit("7");
    reveal_strlit("8");
    reveal_strlit("9");
}

/// A decimal numeral is what it should be: it is made of digits, it does
/// not start with a zero unless it is the numeral of zero, and it stands
/// for the number it was made from.
pub proof fn lemma_decimal_is_the_numeral(n: nat)
    ensures
        decimal(n).len() >= 1,
        forall|i: int| 0 <= i < decimal(n).len() ==> is_digit(#[trigger] decimal(n)[i]),
        n > 0 ==> decimal(n)[0] != '0',
        numeral_value(decimal(n)) == n,
    decreases n,
{
    lemma_digit(n % 10);
    if n < 10 {
        assert(decimal(n).drop_last().len() == 0);
        assert(numeral_value(decimal(n).drop_last()) == 0);
    } else {
        lemma_decimal_is_the_numeral(n / 10);
        let front = decimal(n / 10);
        let all = decimal(n);
        assert(all.drop_last() =~= front);
        assert(all.last() == digit(n % 10)[0]);
        assert forall|i: int| 0 <= i < all.len() implies is_digit(#[trigger] all[i]) by {
            if i < front.len() {
                assert(all[i] == front[i]);
            }
        }
        assert(all[0] == front[0]);
    }
}

fn digit_text(d: u64) -> (text: &'static str)
    requires
        d < 10,
    ensures
        text@ == digit(d as nat),
{
    if d == 0 {
        "0"
    } else if d == 1 {
        "1"
    } else if d == 2 {
        "2"
    } else if d == 3 {
        "3"
    } else if d == 4 {
        "4"
    } else if d == 5 {
        "5"
    } else if d == 6 {
        "6"
    } else if d == 7 {
        "7"
    } else if d == 8 {
        "8"
    } else {
        "9"
    }
}

/// Writes a number as its decimal numeral.
pub fn render_number(n: u64) -> (text: String)
    ensures
        text@ == decimal(n as nat),
    decreases n,
{
    if n < 10 {
        String::from_str(digit_text(n))
    } else {
        let mut text = render_number(n / 10);
        text.append(digit_text(n % 10));
        text
    }
}

/// The characters that trimming removes: the ASCII white space.
pub open spec fn is_blank(c: char) -> bool {
    c == ' ' || c == '\t' || c == '\n' || c == '\r' || c == '\x0b' || c == '\x0c'
}

/// The number of blank characters at the start of `s`.
pub open spec fn leading_blanks(s: Seq<char>) -> nat
    decreases s.len(),
{
    if s.len() > 0 && is_blank(s[0]) {
        1 + leading_blanks(s.subrange(1, s.len() as int))
    } else {
        0
    }
}

/// The number of blank characters at the end of `s`.
pub open spec fn trailing_blanks(s: Seq<char>) -> nat
    decreases s.len(),
{
    if s.len() > 0 && is_blank(s[s.len() - 1]) {
        1 + trailing_blanks(s.subrange(0, s.len() - 1))
    } else {
        0
    }
}

/// `s` without the blank characters at its start and at its end.
pub open spec fn trimmed(s: Seq<char>) -> Seq<char> {
    let rest = s.subrange(leading_blanks(s) as int, s.len() as int);
    rest.subrange(0, rest.len() - trailing_blanks(rest))
}

/// Counting leading blanks can go on from any point that only blanks precede.
proof fn lemma_leading_blanks_from(s: Seq<char>, i: int)
    requires
        0 <= i <= s.len(),
        forall|k: int| 0 <= k < i ==> is_blank(#[trigger] s[k]),
    ensures
        leading_blanks(s) == i + leading_blanks(s.subrange(i, s.len() as int)),
    decreases i,
{
    if i == 0 {
        assert(s.subrange(0, s.len() as int) =~= s);
    } else {
        let tail = s.subrange(1, s.len() as int);
        assert(is_blank(s[0]));
        assert forall|k: int| 0 <= k < i - 1 implies is_blank(#[trigger] tail[k]) by {
            assert(tail[k] == s[k + 1]);
        }
        lemma_leading_blanks_from(tail, i - 1);
        assert(tail.subrange(i - 1, tail.len() as int) =~= s.subrange(i, s.len() as int));
    }
}

/// Counting trailing blanks can go on from any point that only blanks follow.
proof fn lemma_trailing_blanks_from(s: Seq<char>, j: int)
    requires
        0 <= j <= s.len(),
        forall|k: int| j <= k < s.len() ==> is_blank(#[trigger] s[k]),
    ensures
        trailing_blanks(s) == (s.len() - j) + trailing_blanks(s.subrange(0, j)),
    decreases s.len() - j,
{
    if j == s.len() {
        assert(s.subrange(0, j) =~= s);
    } else {
        let front = s.subrange(0, s.len() - 1);
        assert(is_blank(s[s.len() - 1]));
        assert forall|k: int| j <= k < front.len() implies is_blank(#[trigger] front[k]) by {
            assert(front[k] == s[k]);
        }
        lemma_trailing_blanks_from(front, j);
        assert(front.subrange(0, j) =~= s.subrange(0, j));
    }
}

/// The leading blanks of a text are blank, and what follows them is not.
pub proof fn lemma_leading_blanks(s: Seq<char>)
    ensures
        leading_blanks(s) <= s.len(),
        forall|k: int| 0 <= k < leading_blanks(s) ==> is_blank(#[trigger] s[k]),
        leading_blanks(s) < s.len() ==> !is_blank(s[leading_blanks(s) as int]),
    decreases s.len(),
{
    if s.len() > 0 && is_blank(s[0]) {
        let tail = s.subrange(1, s.len() as int);
        lemma_leading_blanks(tail);
        assert forall|k: int| 0 <= k < leading_blanks(s) implies is_blank(#[trigger] s[k]) by {
            if k > 0 {
                assert(s[k] == tail[k - 1]);
            }
        }
        if leading_blanks(s) < s.len() {
            assert(s[leading_blanks(s) as int] == tail[leading_blanks(tail) as int]);
        }
    }
}

/// The trailing blanks of a text are blank, and what comes before them is
/// not.
pub proof fn lemma_trailing_blanks(s: Seq<char>)
    ensures
        trailing_blanks(s) <= s.len(),
        forall|k: int| s.len() - trailing_blanks(s) <= k < s.len() ==> is_blank(#[trigger] s[k]),
        trailing_blanks(s) < s.len() ==> !is_blank(s[s.len() - trailing_blanks(s) - 1]),
    decreases s.len(),
{
    if s.len() > 0 && is_blank(s[s.len() - 1]) {
        let front = s.subrange(0, s.len() - 1);
        lemma_trailing_blanks(front);
        assert forall|k: int| s.len() - trailing_blanks(s) <= k < s.len() implies is_blank(
            #[trigger] s[k],
        ) by {
            if k < s.len() - 1 {
                assert(s[k] == front[k]);
            }
        }
        if trailing_blanks(s) < s.len() {
            assert(s[s.len() - trailing_blanks(s) - 1] == front[front.len() - trailing_blanks(
                front,
            ) - 1]);
        }
    }
}

/// What trimming leaves is the text between its blank ends: a part of the
/// text with nothing but blanks before it and after it, which neither
/// starts nor ends with a blank.
pub proof fn lemma_trimmed_is_bare(s: Seq<char>)
    ensures
        ({
            let start = leading_blanks(s) as int;
            let end = start + trimmed(s).len();
            &&& 0 <= start <= end <= s.len()
            &&& trimmed(s) == s.subrange(start, end)
            &&& forall|k: int| 0 <= k < start ==> is_blank(#[trigger] s[k])
            &&& forall|k: int| end <= k < s.len() ==> is_blank(#[trigger] s[k])
            &&& trimmed(s).len() > 0 ==> !is_blank(trimmed(s)[0]) && !is_blank(
                trimmed(s)[trimmed(s).len() - 1],
            )
        }),
{
    lemma_leading_blanks(s);
    let start = leading_blanks(s) as int;
    let rest = s.subrange(start, s.len() as int);
    lemma_trailing_blanks(rest);
    let end = start + trimmed(s).len();
    assert(trimmed(s) =~= s.subrange(start, end));
    assert forall|k: int| end <= k < s.len() implies is_blank(#[trigger] s[k]) by {
        assert(s[k] == rest[k - start]);
    }
    if trimmed(s).len() > 0 {
        assert(trimmed(s)[0] == s[start]);
        assert(trimmed(s)[trimmed(s).len() - 1] == rest[rest.len() - trailing_blanks(rest) - 1]);
    }
}

fn blank(c: char) -> (b: bool)
    ensures
        b == is_blank(c),
{
    c == ' ' || c == '\t' || c == '\n' || c == '\r' || c == '\x0b' || c == '\x0c'
}

/// Removes the ASCII white space at both ends of `text`.
pub fn trim(text: &str) -> (inner: &str)
    ensures
        inner@ == trimmed(text@),
{
    let len: usize = text.unicode_len();
    let mut start: usize = 0;
    while start < len && blank(text.get_char(start))
        invariant
            len == text@.len(),
            start <= len,
            forall|k: int| 0 <= k < start ==> is_blank(#[trigger] text@[k]),
        decreases len - start,
    {
        start = start + 1;
    }
    let mut end: usize = len;
    while end > start && blank(text.get_char(end - 1))
        invariant
            len == text@.len(),
            start <= end <= len,
            forall|k: int| end <= k < len ==> is_blank(#[trigger] text@[k]),
        decreases end,
    {
        end = end - 1;
    }
    proof {
        let s = text@;
        let rest = s.subrange(start as int, len as int);
        lemma_leading_blanks_from(s, start as int);
        assert(leading_blanks(rest) == 0) by {
            if rest.len() > 0 {
                assert(rest[0] == s[start as int]);
            }
        }
        assert(leading_blanks(s) == start);
        assert forall|k: int| end - start <= k < rest.len() implies is_blank(
            #[trigger] rest[k],
        ) by {
            assert(rest[k] == s[k + start]);
        }
        lemma_trailing_blanks_from(rest, end - start);
        let core = rest.subrange(0, end - start);
        assert(trailing_blanks(core) == 0) by {
            if core.len() > 0 {
                assert(core[core.len() - 1] == s[end - 1]);
            }
        }
        assert(trailing_blanks(rest) == len - end);
        assert(core =~= s.subrange(start as int, end as int));
    }
    text.substring_char(start, end)
}

/// Tells whether `s` reads "true" when letter case is ignored.
pub open spec fn reads_true(s: Seq<char>) -> bool {
    &&& s.len() == 4
    &&& (s[0] == 't' || s[0] == 'T')
    &&& (s[1] == 'r' || s[1] == 'R')
    &&& (s[2] == 'u' || s[2] == 'U')
    &&& (s[3] == 'e' || s[3] == 'E')
}

/// Tells whether `text` reads "true" when letter case is ignored.
pub fn is_true(text: &str) -> (yes: bool)
    ensures
        yes == reads_true(text@),
{
    if text.unicode_len() != 4 {
        return false;
    }
    let c0 = text.get_char(0);
    let c1 = text.get_char(1);
    let c2 = text.get_char(2);
    let c3 = text.get_char(3);
    (c0 == 't' || c0 == 'T') && (c1 == 'r' || c1 == 'R') && (c2 == 'u' || c2 == 'U') && (c3 == 'e'
        || c3 == 'E')
}

} // verus!
