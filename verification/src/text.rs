//! Text as sequences of characters: decimal numbers, trailing characters and
//! lines.
use vstd::prelude::*;

verus! {

/// The decimal digit of `d`, for `0 <= d <= 9`.
pub open spec fn digit(d: int) -> char {
    (48 + d) as char
}

pub open spec fn is_digit(c: char) -> bool {
    '0' <= c <= '9'
}

/// `n` in decimal, without leading zeros.
pub open spec fn decimal(n: nat) -> Seq<char>
    decreases n,
{
    if n < 10 {
        seq![digit(n as int)]
    } else {
        decimal(n / 10).push(digit((n % 10) as int))
    }
}

/// `n` in decimal, with a minus sign in front when it is negative.
pub open spec fn signed_decimal(n: int) -> Seq<char> {
    if n < 0 {
        seq!['-'] + decimal((-n) as nat)
    } else {
        decimal(n as nat)
    }
}

/// The number that a sequence of digits denotes.
pub open spec fn digits_value(s: Seq<char>) -> nat
    decreases s.len(),
{
    if s.len() == 0 {
        0
    } else {
        digits_value(s.drop_last()) * 10 + (s.last() as nat - 48) as nat
    }
}

pub open spec fn all_digits(s: Seq<char>) -> bool {
    forall|i: int| 0 <= i < s.len() ==> is_digit(#[trigger] s[i])
}

/// Whether `s` starts with a sign.
pub open spec fn has_sign(s: Seq<char>) -> bool {
    s.len() > 0 && (s[0] == '-' || s[0] == '+')
}

/// `s` without its sign.
pub open spec fn magnitude(s: Seq<char>) -> Seq<char> {
    if has_sign(s) {
        s.skip(1)
    } else {
        s
    }
}

/// The number that `s` denotes: an optional sign, then one digit or more.
pub open spec fn integer_value(s: Seq<char>) -> Option<int> {
    let digits = magnitude(s);
    if digits.len() == 0 || !all_digits(digits) {
        None
    } else if s[0] == '-' {
        Some(-(digits_value(digits) as int))
    } else {
        Some(digits_value(digits) as int)
    }
}

/// The `i64` that `s` denotes, if it denotes a number and an `i64` can hold it.
pub open spec fn i64_value(s: Seq<char>) -> Option<i64> {
    match integer_value(s) {
        Some(n) => if i64::MIN <= n <= i64::MAX {
            Some(n as i64)
        } else {
            None
        },
        None => None,
    }
}

/// `s` without the run of `c` at its end.
pub open spec fn without_trailing(s: Seq<char>, c: char) -> Seq<char>
    decreases s.len(),
{
    if s.len() > 0 && s.last() == c {
        without_trailing(s.drop_last(), c)
    } else {
        s
    }
}

pub open spec fn has_newline(s: Seq<char>) -> bool {
    s.contains('\n')
}

/// How many characters stand before the first newline.
pub open spec fn first_line_len(s: Seq<char>) -> nat
    decreases s.len(),
{
    if s.len() == 0 || s[0] == '\n' {
        0
    } else {
        1 + first_line_len(s.skip(1))
    }
}

/// What stands before the first newline; all of `s` when there is none.
pub open spec fn first_line(s: Seq<char>) -> Seq<char> {
    s.take(first_line_len(s) as int)
}

/// What stands after the first newline; nothing when there is none.
pub open spec fn after_first_line(s: Seq<char>) -> Seq<char> {
    if first_line_len(s) < s.len() {
        s.skip(first_line_len(s) as int + 1)
    } else {
        Seq::empty()
    }
}

/// Reads a decimal `i64`: an optional `+` or `-`, then one ASCII digit or more.
pub fn parse_i64(text: &str) -> (res: Option<i64>)
    ensures
        res == i64_value(text@),
{
    let len: usize = text.unicode_len();
    if len == 0 {
        return None;
    }
    let first: char = text.get_char(0);
    let start: usize = if first == '-' || first == '+' {
        1
    } else {
        0
    };
    let ghost digits = magnitude(text@);
    if start == len {
        return None;
    }
    let limit: u128 = 0x8000_0000_0000_0000;
    let mut value: u128 = 0;
    let mut fits: bool = true;
    let mut i: usize = start;
    assert(digits.take(0) =~= Seq::empty());
    while i < len
        invariant
            start <= i <= len,
            len == text@.len(),
            start <= 1,
            digits == text@.skip(start as int),
            digits == magnitude(text@),
            limit == 0x8000_0000_0000_0000,
            forall|k: int| 0 <= k < i - start ==> is_digit(#[trigger] digits[k]),
            fits ==> value == digits_value(digits.take(i - start)) && value <= limit,
            !fits ==> digits_value(digits.take(i - start)) > limit,
        decreases len - i,
    {
        let c: char = text.get_char(i);
        assert(c == digits[i - start]);
        if c < '0' || c > '9' {
            assert(!is_digit(digits[i - start]));
            return None;
        }
        proof {
            assert(digits.take(i - start + 1).drop_last() =~= digits.take(i - start));
            assert(digits.take(i - start + 1).last() == c);
        }
        if fits {
            value = value * 10 + (c as u128 - 48);
            fits = value <= limit;
        }
        i = i + 1;
    }
    assert(digits.take(len - start) =~= digits);
    assert(all_digits(digits));
    if !fits {
        None
    } else if first == '-' {
        if value == limit {
            Some(i64::MIN)
        } else {
            Some(-(value as i64))
        }
    } else if value == limit {
        None
    } else {
        Some(value as i64)
    }
}

/// The text of the digit `d`.
fn digit_text(d: u64) -> (res: &'static str)
    requires
        d < 10,
    ensures
        res@ == seq![digit(d as int)],
{
    proof {
        reveal_strlit("0");
        reveal_strlit("1");
        reveal_strlit("2");
        reveal_strlit("3");
        reveal_strlit("4");
        reveal_strlit("5");
        reveal_strlit("6");
        reveal_strlit("7");
        reveal_strlit("8");
        reveal_strlit("9");
    }
    match d {
        0 => "0",
        1 => "1",
        2 => "2",
        3 => "3",
        4 => "4",
        5 => "5",
        6 => "6",
        7 => "7",
        8 => "8",
        _ => "9",
    }
}

/// Appends `n` in decimal.
fn append_decimal(out: &mut String, n: u64)
    ensures
        final(out)@ == old(out)@ + decimal(n as nat),
    decreases n,
{
    let ghost before = out@;
    if n >= 10 {
        append_decimal(out, n / 10);
    }
    out.append(digit_text(n % 10));
    assert(out@ =~= before + decimal(n as nat));
}

/// `n` in decimal.
pub fn i64_text(n: i64) -> (res: String)
    ensures
        res@ == signed_decimal(n as int),
{
    let mut out = String::new();
    if n < 0 {
        proof {
            reveal_strlit("-");
        }
        out.append("-");
        assert(out@ =~= seq!['-']);
        let size: u64 = (-(n as i128)) as u64;
        append_decimal(&mut out, size);
    } else {
        append_decimal(&mut out, n as u64);
    }
    assert(out@ =~= signed_decimal(n as int));
    out
}

/// `text` without the run of `c` at its end.
pub fn trim_end(text: &str, c: char) -> (res: &str)
    ensures
        res@ == without_trailing(text@, c),
{
    let mut end: usize = text.unicode_len();
    assert(text@.take(end as int) =~= text@);
    while end > 0 && text.get_char(end - 1) == c
        invariant
            end <= text@.len(),
            without_trailing(text@.take(end as int), c) == without_trailing(text@, c),
        ensures
            end <= text@.len(),
            without_trailing(text@.take(end as int), c) == without_trailing(text@, c),
            end > 0 ==> text@[end - 1] != c,
        decreases end,
    {
        assert(text@.take(end as int).drop_last() =~= text@.take(end - 1));
        assert(text@.take(end as int).last() == c);
        end = end - 1;
    }
    assert(end > 0 ==> text@.take(end as int).last() == text@[end - 1]);
    text.substring_char(0, end)
}

proof fn lemma_first_line_len(s: Seq<char>, n: int)
    requires
        0 <= n <= s.len(),
        forall|i: int| 0 <= i < n ==> s[i] != '\n',
        n < s.len() ==> s[n] == '\n',
    ensures
        first_line_len(s) == n,
    decreases n,
{
    if n > 0 {
        lemma_first_line_len(s.skip(1), n - 1);
    }
}

/// Splits `text` at its first newline, which stands in neither part.
pub fn split_line(text: &str) -> (res: (&str, &str))
    ensures
        res.0@ == first_line(text@),
        res.1@ == after_first_line(text@),
{
    let len: usize = text.unicode_len();
    let mut n: usize = 0;
    while n < len && text.get_char(n) != '\n'
        invariant
            n <= len,
            len == text@.len(),
            forall|i: int| 0 <= i < n ==> text@[i] != '\n',
        ensures
            n <= len,
            forall|i: int| 0 <= i < n ==> text@[i] != '\n',
            n < len ==> text@[n as int] == '\n',
        decreases len - n,
    {
        n = n + 1;
    }
    proof {
        lemma_first_line_len(text@, n as int);
    }
    if n < len {
        (text.substring_char(0, n), text.substring_char(n + 1, len))
    } else {
        (text.substring_char(0, n), text.substring_char(len, len))
    }
}

/// The digits of a number are digits, and they denote that number.
pub proof fn decimal_denotes_its_number(n: nat)
    ensures
        decimal(n).len() > 0,
        all_digits(decimal(n)),
        digits_value(decimal(n)) == n,
    decreases n,
{
    if n >= 10 {
        decimal_denotes_its_number(n / 10);
        assert(decimal(n).drop_last() =~= decimal(n / 10));
    } else {
        assert(decimal(n).drop_last() =~= Seq::empty());
        assert(digits_value(Seq::empty()) == 0);
    }
}

/// Reading the text of an `i64` gives that `i64` back.
pub proof fn i64_text_reads_back(n: i64)
    ensures
        i64_value(signed_decimal(n as int)) == Some(n),
{
    let size: nat = if n < 0 {
        (-n) as nat
    } else {
        n as nat
    };
    decimal_denotes_its_number(size);
    let s = signed_decimal(n as int);
    if n < 0 {
        assert(s.skip(1) =~= decimal(size));
    } else {
        assert(is_digit(s[0]));
    }
}

/// The first line has no newline, and putting the newline back gives the text.
pub proof fn first_line_splits(s: Seq<char>)
    ensures
        !has_newline(first_line(s)),
        first_line_len(s) <= s.len(),
        has_newline(s) ==> s == first_line(s) + seq!['\n'] + after_first_line(s),
        !has_newline(s) ==> s == first_line(s) && after_first_line(s).len() == 0,
    decreases s.len(),
{
    if s.len() == 0 {
        assert(first_line(s) =~= s);
    } else if s[0] == '\n' {
        assert(s.contains('\n'));
        assert(s =~= first_line(s) + seq!['\n'] + after_first_line(s));
    } else {
        let t = s.skip(1);
        first_line_splits(t);
        assert(first_line(s) =~= seq![s[0]] + first_line(t));
        assert(!has_newline(first_line(s))) by {
            if first_line(s).contains('\n') {
                let i = first_line(s).index_of('\n');
                assert(first_line(t)[i - 1] == '\n');
            }
        }
        if has_newline(s) {
            let i = s.index_of('\n');
            assert(t[i - 1] == '\n');
            assert(s =~= seq![s[0]] + t);
            assert(after_first_line(s) =~= after_first_line(t));
            assert(s =~= first_line(s) + seq!['\n'] + after_first_line(s));
        } else {
            assert(!has_newline(t)) by {
                if t.contains('\n') {
                    let i = t.index_of('\n');
                    assert(s[i + 1] == '\n');
                }
            }
            assert(s =~= first_line(s));
        }
    }
}

/// A line put in front of a text with a newline between them is that text's
/// first line, and the text follows it.
pub proof fn first_line_of_joined(line: Seq<char>, rest: Seq<char>)
    requires
        !has_newline(line),
    ensures
        first_line(line + seq!['\n'] + rest) == line,
        after_first_line(line + seq!['\n'] + rest) == rest,
{
    let s = line + seq!['\n'] + rest;
    assert forall|i: int| 0 <= i < line.len() implies s[i] != '\n' by {
        assert(line.contains(line[i]));
    }
    lemma_first_line_len(s, line.len() as int);
    assert(first_line(s) =~= line);
    assert(after_first_line(s) =~= rest);
}

/// What is left has no such character at its end, and only such characters
/// were taken away.
pub proof fn trailing_run_is_removed(s: Seq<char>, c: char)
    ensures
        without_trailing(s, c).len() <= s.len(),
        without_trailing(s, c) == s.take(without_trailing(s, c).len() as int),
        without_trailing(s, c).len() > 0 ==> without_trailing(s, c).last() != c,
        forall|i: int| without_trailing(s, c).len() <= i < s.len() ==> s[i] == c,
    decreases s.len(),
{
    if s.len() > 0 && s.last() == c {
        let t = s.drop_last();
        trailing_run_is_removed(t, c);
        assert forall|i: int| without_trailing(s, c).len() <= i < s.len() implies s[i] == c by {
            if i < t.len() {
                assert(t[i] == c);
            }
        }
        assert(without_trailing(s, c) =~= s.take(without_trailing(s, c).len() as int));
    } else {
        assert(s =~= s.take(s.len() as int));
    }
}

} // verus!
