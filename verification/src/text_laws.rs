//! What holds of numbers, lines and trailing characters, said of the characters
//! themselves.
use vstd::prelude::*;

use crate::text::{
    after_first_line, all_digits, decimal, decimal_denotes_its_number, digits_value, first_line,
    first_line_of_joined, first_line_splits, has_newline, i64_text, i64_text_reads_back, i64_value,
    integer_value, is_digit, magnitude, parse_i64, signed_decimal, split_line,
    trailing_run_is_removed, trim_end, without_trailing,
};

verus! {

/// One digit alone denotes its own value.
pub proof fn one_digit_denotes_itself(c: char)
    requires
        '0' <= c <= '9',
    ensures
        integer_value(seq![c]) == Some(c as int - '0' as int),
{
    let s = seq![c];
    assert(magnitude(s) == s);
    assert(all_digits(s));
    assert(s.drop_last() =~= Seq::<char>::empty());
    assert(digits_value(Seq::<char>::empty()) == 0);
    assert(digits_value(s) == (c as nat - 48) as nat);
}

/// A digit written behind digits counts one, and makes each of them count ten
/// times as much.
pub proof fn further_digit_makes_ten_times_as_much(s: Seq<char>, c: char)
    requires
        s.len() > 0,
        forall|i: int| 0 <= i < s.len() ==> '0' <= #[trigger] s[i] <= '9',
        '0' <= c <= '9',
    ensures
        integer_value(s) is Some,
        integer_value(s.push(c)) == Some(10 * integer_value(s)->0 + (c as int - '0' as int)),
{
    let t = s.push(c);
    assert(is_digit(s[0]));
    assert(t[0] == s[0]);
    assert(all_digits(s));
    assert(all_digits(t));
    assert(t.drop_last() =~= s);
    assert(t.last() == c);
}

/// A minus sign in front of digits turns the number round, and a plus sign leaves
/// it as it is.
pub proof fn sign_decides_on_which_side_of_zero(s: Seq<char>)
    requires
        s.len() > 0,
        forall|i: int| 0 <= i < s.len() ==> '0' <= #[trigger] s[i] <= '9',
    ensures
        integer_value(s) matches Some(n) && n >= 0,
        integer_value(seq!['-'] + s) == Some(-integer_value(s)->0),
        integer_value(seq!['+'] + s) == integer_value(s),
{
    assert(is_digit(s[0]));
    assert(all_digits(s));
    assert((seq!['-'] + s).skip(1) =~= s);
    assert((seq!['+'] + s).skip(1) =~= s);
}

/// Only digits, behind at most one sign, denote a number.
pub proof fn only_digits_behind_at_most_one_sign_denote(s: Seq<char>)
    ensures
        integer_value(s) is Some <==> {
            &&& s.len() > 0
            &&& '0' <= s[0] <= '9' || ((s[0] == '-' || s[0] == '+') && s.len() > 1)
            &&& forall|i: int| 1 <= i < s.len() ==> '0' <= #[trigger] s[i] <= '9'
        },
{
    let d = magnitude(s);
    if s.len() > 0 {
        let k: int = if s[0] == '-' || s[0] == '+' {
            1
        } else {
            0
        };
        assert(d =~= s.skip(k));
        if all_digits(d) && d.len() > 0 {
            assert forall|i: int| 1 <= i < s.len() implies '0' <= #[trigger] s[i] <= '9' by {
                assert(is_digit(d[i - k]));
            }
            assert(k == 0 ==> is_digit(d[0]));
        }
        if '0' <= s[0] <= '9' || ((s[0] == '-' || s[0] == '+') && s.len() > 1) {
            if forall|i: int| 1 <= i < s.len() ==> '0' <= #[trigger] s[i] <= '9' {
                assert forall|i: int| 0 <= i < d.len() implies is_digit(#[trigger] d[i]) by {
                    assert(d[i] == s[i + k]);
                }
            }
        }
    }
}

/// A number is read wherever 64 bits can hold it, and nowhere else.
pub proof fn numbers_within_64_bits_are_read(s: Seq<char>)
    ensures
        i64_value(s) is Some <==> integer_value(s) is Some
            && -0x8000_0000_0000_0000 <= integer_value(s)->0 <= 0x7fff_ffff_ffff_ffff,
        i64_value(s) is Some ==> i64_value(s)->0 as int == integer_value(s)->0,
{
}

proof fn lemma_no_leading_zero(n: nat)
    ensures
        decimal(n).len() > 0,
        decimal(n)[0] == '0' ==> n == 0,
        n == 0 ==> decimal(n) == seq!['0'],
    decreases n,
{
    if n >= 10 {
        lemma_no_leading_zero(n / 10);
        assert(decimal(n)[0] == decimal(n / 10)[0]);
    } else {
        assert(decimal(n)[0] == (48 + n) as char);
        assert(decimal(n) =~= seq![(48 + n) as char]);
    }
}

/// The text of a number is the shortest that denotes it: digits alone, a minus
/// sign in front of them only when the number is negative, no zero in front of
/// other digits, and nothing else.
pub proof fn number_text_is_plain(n: i64)
    ensures
        i64_value(signed_decimal(n as int)) == Some(n),
        signed_decimal(n as int).len() > 0,
        signed_decimal(n as int)[0] == '-' <==> n < 0,
        n >= 0 ==> '0' <= signed_decimal(n as int)[0] <= '9',
        forall|i: int|
            1 <= i < signed_decimal(n as int).len() ==> '0' <= #[trigger] signed_decimal(
                n as int,
            )[i] <= '9',
        n == 0 <==> signed_decimal(n as int) == seq!['0'],
        n > 0 ==> signed_decimal(n as int)[0] != '0',
        n < 0 ==> signed_decimal(n as int).len() > 1 && signed_decimal(n as int)[1] != '0',
{
    let s = signed_decimal(n as int);
    let size: nat = if n < 0 {
        (-n) as nat
    } else {
        n as nat
    };
    i64_text_reads_back(n);
    decimal_denotes_its_number(size);
    lemma_no_leading_zero(size);
    assert(is_digit(decimal(size)[0]));
    assert forall|i: int| 1 <= i < s.len() implies '0' <= #[trigger] s[i] <= '9' by {
        if n < 0 {
            assert(is_digit(decimal(size)[i - 1]));
        } else {
            assert(is_digit(decimal(size)[i]));
        }
    }
    if n < 0 {
        assert(s[1] == decimal(size)[0]);
    }
    if s == seq!['0'] {
        assert(s[0] == '0');
    }
}

/// A text without a newline is one line, and nothing follows it.
pub proof fn text_without_newline_is_one_line(s: Seq<char>)
    requires
        forall|i: int| 0 <= i < s.len() ==> #[trigger] s[i] != '\n',
    ensures
        first_line(s) == s,
        after_first_line(s) == Seq::<char>::empty(),
{
    first_line_splits(s);
    assert(!has_newline(s));
    assert(after_first_line(s) =~= Seq::<char>::empty());
}

/// At its first newline a text falls into its first line and the rest, whatever
/// the rest holds.
pub proof fn text_splits_at_its_first_newline(line: Seq<char>, rest: Seq<char>)
    requires
        forall|i: int| 0 <= i < line.len() ==> #[trigger] line[i] != '\n',
    ensures
        first_line(line + seq!['\n'] + rest) == line,
        after_first_line(line + seq!['\n'] + rest) == rest,
{
    assert(!has_newline(line));
    first_line_of_joined(line, rest);
}

/// A run of a character at the end of a text goes, however long it is, and what
/// stands before it stays as it is.
pub proof fn only_the_trailing_run_goes(s: Seq<char>, c: char, n: nat)
    requires
        s.len() > 0 ==> s.last() != c,
    ensures
        without_trailing(s + Seq::new(n, |i: int| c), c) == s,
    decreases n,
{
    let run = Seq::new(n, |i: int| c);
    if n == 0 {
        assert(s + run =~= s);
    } else {
        only_the_trailing_run_goes(s, c, (n - 1) as nat);
        assert((s + run).drop_last() =~= s + Seq::new((n - 1) as nat, |i: int| c));
        assert((s + run).last() == c);
    }
}

/// A number that is written is read back as it was.
pub proof fn written_number_is_read_back(n: i64, written: String, text: &str, read: Option<i64>)
    requires
        call_ensures(i64_text, (n,), written),
        call_ensures(parse_i64, (text,), read),
        text@ == written@,
    ensures
        read == Some(n),
{
    number_text_is_plain(n);
}

/// A text is read exactly when it is digits behind at most one sign and 64 bits can
/// hold its number, and it is that number.
pub proof fn text_is_read_as_its_number(text: &str, read: Option<i64>)
    requires
        call_ensures(parse_i64, (text,), read),
    ensures
        read is Some <==> {
            &&& text@.len() > 0
            &&& '0' <= text@[0] <= '9' || ((text@[0] == '-' || text@[0] == '+') && text@.len() > 1)
            &&& forall|i: int| 1 <= i < text@.len() ==> '0' <= #[trigger] text@[i] <= '9'
            &&& -0x8000_0000_0000_0000 <= integer_value(text@)->0 <= 0x7fff_ffff_ffff_ffff
        },
        read matches Some(n) ==> integer_value(text@) == Some(n as int),
{
    only_digits_behind_at_most_one_sign_denote(text@);
    numbers_within_64_bits_are_read(text@);
}

/// Splitting a text loses nothing but its first newline.
pub proof fn split_parts_make_up_the_text(text: &str, parts: (&str, &str))
    requires
        call_ensures(split_line, (text,), parts),
    ensures
        !parts.0@.contains('\n'),
        text@.contains('\n') ==> text@ == parts.0@ + seq!['\n'] + parts.1@,
        !text@.contains('\n') ==> text@ == parts.0@ && parts.1@.len() == 0,
{
    first_line_splits(text@);
}

/// Trimming takes the run of the character at the end, all of it, and nothing
/// else.
pub proof fn trimmed_text_lacks_only_the_run(text: &str, c: char, trimmed: &str)
    requires
        call_ensures(trim_end, (text, c), trimmed),
    ensures
        trimmed@.len() <= text@.len(),
        trimmed@ == text@.take(trimmed@.len() as int),
        trimmed@.len() > 0 ==> trimmed@.last() != c,
        forall|i: int| trimmed@.len() <= i < text@.len() ==> #[trigger] text@[i] == c,
{
    trailing_run_is_removed(text@, c);
}

} // verus!
