//! Small facts about text: cutting it at a character, and decimal numbers.

use vstd::prelude::*;

verus! {

/// The part of `s` before its first `c`, or all of `s` if it has none.
pub open spec fn before_first(s: Seq<char>, c: char) -> Seq<char>
    decreases s.len(),
{
    if s.len() == 0 || s[0] == c {
        Seq::empty()
    } else {
        seq![s[0]] + before_first(s.skip(1), c)
    }
}

/// The part of `s` after its last `c`, or all of `s` if it has none.
pub open spec fn after_last(s: Seq<char>, c: char) -> Seq<char>
    decreases s.len(),
{
    if s.len() == 0 || s.last() == c {
        Seq::empty()
    } else {
        after_last(s.drop_last(), c).push(s.last())
    }
}

/// Whether `c` is one of `0` to `9`.
pub open spec fn is_digit(c: char) -> bool {
    '0' <= c <= '9'
}

/// Whether `s` holds digits alone.
pub open spec fn all_digits(s: Seq<char>) -> bool {
    forall|i: int| 0 <= i < s.len() ==> is_digit(#[trigger] s[i])
}

/// The digit that stands for `d`.
pub open spec fn digit(d: nat) -> char
    recommends
        d < 10,
{
    (48 + d) as char
}

/// `n` in decimal, without leading zeros.
pub open spec fn decimal(n: nat) -> Seq<char>
    decreases n,
{
    if n < 10 {
        seq![digit(n)]
    } else {
        decimal(n / 10).push(digit(n % 10))
    }
}

/// The number that a run of digits stands for.
pub open spec fn decimal_value(s: Seq<char>) -> nat
    decreases s.len(),
{
    if s.len() == 0 {
        0
    } else {
        (10 * decimal_value(s.drop_last()) + (s.last() as u32 - 48)) as nat
    }
}

/// What `s` reads as: a number of sixteen bits in decimal, which may have a
/// plus sign in front and any number of leading zeros.
pub open spec fn read_u16(s: Seq<char>) -> Option<u16> {
    let digits = if s.len() > 0 && s[0] == '+' {
        s.skip(1)
    } else {
        s
    };
    if digits.len() > 0 && all_digits(digits) && decimal_value(digits) <= u16::MAX {
        Some(decimal_value(digits) as u16)
    } else {
        None
    }
}

/// Whether every character of `s` is one of the printable ones of ASCII, the
/// space not among them.
pub open spec fn is_graphic(s: Seq<char>) -> bool {
    forall|i: int| 0 <= i < s.len() ==> '!' <= #[trigger] s[i] <= '~'
}

pub proof fn lemma_before_first(s: Seq<char>, c: char)
    ensures
        before_first(s, c).len() <= s.len(),
        before_first(s, c) == s.take(before_first(s, c).len() as int),
        !before_first(s, c).contains(c),
    decreases s.len(),
{
    if s.len() > 0 && s[0] != c {
        lemma_before_first(s.skip(1), c);
        let rest = before_first(s.skip(1), c);
        assert(before_first(s, c) =~= s.take((rest.len() + 1) as int));
        assert forall|i: int| 0 <= i < before_first(s, c).len() implies before_first(s, c)[i]
            != c by {
            if i > 0 {
                assert(rest.contains(rest[i - 1]));
            }
        }
    }
}

/// What stands behind the part before the first `c` is that `c`.
pub proof fn lemma_first(s: Seq<char>, c: char)
    requires
        before_first(s, c).len() < s.len(),
    ensures
        s[before_first(s, c).len() as int] == c,
    decreases s.len(),
{
    if s[0] != c {
        lemma_first(s.skip(1), c);
    }
}

pub proof fn lemma_after_last(s: Seq<char>, c: char)
    ensures
        after_last(s, c).len() <= s.len(),
        after_last(s, c) == s.skip(s.len() - after_last(s, c).len()),
        !after_last(s, c).contains(c),
    decreases s.len(),
{
    if s.len() > 0 && s.last() != c {
        lemma_after_last(s.drop_last(), c);
        assert(after_last(s, c) =~= s.skip(s.len() - after_last(s, c).len()));
        let rest = after_last(s.drop_last(), c);
        assert forall|i: int| 0 <= i < after_last(s, c).len() implies after_last(s, c)[i] != c by {
            if i < rest.len() {
                assert(rest.contains(rest[i]));
            }
        }
    } else {
        assert(after_last(s, c) =~= s.skip(s.len() as int));
    }
}

/// What stands before a `c` and has none is what stands before the first.
pub proof fn lemma_before_first_of(s: Seq<char>, c: char, rest: Seq<char>)
    requires
        !s.contains(c),
        rest.len() > 0 ==> rest[0] == c,
    ensures
        before_first(s + rest, c) == s,
    decreases s.len(),
{
    let whole = s + rest;
    if s.len() > 0 {
        assert(s.contains(s[0]));
        assert(whole.skip(1) =~= s.skip(1) + rest);
        assert forall|i: int| 0 <= i < s.skip(1).len() implies s.skip(1)[i] != c by {
            assert(s.contains(s[i + 1]));
        }
        lemma_before_first_of(s.skip(1), c, rest);
        assert(before_first(whole, c) =~= s);
    } else {
        assert(before_first(whole, c) =~= s);
    }
}

/// What stands after a `c` and has none is what stands after the last.
pub proof fn lemma_after_last_of(rest: Seq<char>, c: char, s: Seq<char>)
    requires
        !s.contains(c),
        rest.len() > 0 ==> rest.last() == c,
    ensures
        after_last(rest + s, c) == s,
    decreases s.len(),
{
    let whole = rest + s;
    if s.len() > 0 {
        assert(s.contains(s.last()));
        assert(whole.drop_last() =~= rest + s.drop_last());
        assert forall|i: int| 0 <= i < s.drop_last().len() implies s.drop_last()[i] != c by {
            assert(s.contains(s[i]));
        }
        lemma_after_last_of(rest, c, s.drop_last());
        assert(after_last(whole, c) =~= s);
    } else {
        assert(after_last(whole, c) =~= s);
    }
}

/// A number in decimal reads back as that number.
pub proof fn decimal_reads_back(n: u16)
    ensures
        read_u16(decimal(n as nat)) == Some(n),
{
    lemma_decimal(n as nat);
}

pub proof fn lemma_decimal(n: nat)
    ensures
        decimal(n).len() > 0,
        all_digits(decimal(n)),
        decimal_value(decimal(n)) == n,
    decreases n,
{
    if n < 10 {
        assert(decimal(n).drop_last() =~= Seq::empty());
        reveal_with_fuel(decimal_value, 2);
    } else {
        lemma_decimal(n / 10);
        assert(decimal(n).drop_last() =~= decimal(n / 10));
    }
}

/// The digit that stands for `d`, as text.
fn digit_text(d: u16) -> (r: &'static str)
    requires
        d < 10,
    ensures
        r@ == seq![digit(d as nat)],
{
    proof {
        reveal_strlit("0");
        reveal_strlit("1");
        reveal_strlit("2");
        reveal_strlit("3");
        reveal_strlit("4");
        reveal_strlit("5");
        reveal_strlit("6");
        reveal_strlit("7");
        reveal_strlit("8");
        reveal_strlit("9");
    }
    match d {
        0 => "0",
        1 => "1",
        2 => "2",
        3 => "3",
        4 => "4",
        5 => "5",
        6 => "6",
        7 => "7",
        8 => "8",
        _ => "9",
    }
}

/// `n` in decimal.
pub fn to_decimal(n: u16) -> (r: String)
    ensures
        r@ == decimal(n as nat),
    decreases n,
{
    if n < 10 {
        digit_text(n).to_owned()
    } else {
        to_decimal(n / 10).concat(digit_text(n % 10))
    }
}

} // verus!
