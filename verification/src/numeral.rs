//! Decimal numerals, padded on the left to a least width.

use vstd::prelude::*;
use vstd::string::StringExecFns;

verus! {

/// The character of a decimal digit.
pub open spec fn digit(d: nat) -> char {
    if d == 0 {
        '0'
    } else if d == 1 {
        '1'
    } else if d == 2 {
        '2'
    } else if d == 3 {
        '3'
    } else if d == 4 {
        '4'
    } else if d == 5 {
        '5'
    } else if d == 6 {
        '6'
    } else if d == 7 {
        '7'
    } else if d == 8 {
        '8'
    } else {
        '9'
    }
}

/// The decimal numeral of `n`, without leading zeros.
pub open spec fn digits(n: nat) -> Seq<char>
    decreases n,
{
    if n < 10 {
        seq![digit(n)]
    } else {
        digits(n / 10).push(digit(n % 10))
    }
}

/// `count` copies of `fill`.
pub open spec fn filler(count: nat, fill: char) -> Seq<char> {
    Seq::new(count, |i: int| fill)
}

/// `text` with as many `fill` in front as it takes to reach `width`.
pub open spec fn left_pad(text: Seq<char>, width: nat, fill: char) -> Seq<char> {
    if text.len() >= width {
        text
    } else {
        filler((width - text.len()) as nat, fill) + text
    }
}

/// The numeral of `n`, at least `width` long, with `fill` in front.
pub open spec fn numeral(n: nat, width: nat, fill: char) -> Seq<char> {
    left_pad(digits(n), width, fill)
}

/// What a character adds to the value of a numeral: a digit its number,
/// anything else nothing.
pub open spec fn digit_value(c: char) -> nat {
    if c == '1' {
        1
    } else if c == '2' {
        2
    } else if c == '3' {
        3
    } else if c == '4' {
        4
    } else if c == '5' {
        5
    } else if c == '6' {
        6
    } else if c == '7' {
        7
    } else if c == '8' {
        8
    } else if c == '9' {
        9
    } else {
        0
    }
}

/// The number that a padded numeral stands for.
pub open spec fn value(text: Seq<char>) -> nat
    decreases text.len(),
{
    if text.len() == 0 {
        0
    } else {
        value(text.drop_last()) * 10 + digit_value(text.last())
    }
}

/// A run of zeros or blanks stands for nothing.
proof fn lemma_filler_value(count: nat, fill: char)
    requires
        digit_value(fill) == 0,
    ensures
        value(filler(count, fill)) == 0,
    decreases count,
{
    if count > 0 {
        assert(filler(count, fill).drop_last() =~= filler((count - 1) as nat, fill));
        lemma_filler_value((count - 1) as nat, fill);
    }
}

/// Text in front that stands for nothing leaves the value as it is.
proof fn lemma_value_after_filler(front: Seq<char>, text: Seq<char>)
    requires
        value(front) == 0,
    ensures
        value(front + text) == value(text),
    decreases text.len(),
{
    if text.len() == 0 {
        assert(front + text =~= front);
    } else {
        assert((front + text).drop_last() =~= front + text.drop_last());
        lemma_value_after_filler(front, text.drop_last());
    }
}

/// A numeral stands for the number it was made of.
pub proof fn lemma_digits_value(n: nat)
    ensures
        value(digits(n)) == n,
    decreases n,
{
    if n < 10 {
        assert(digits(n).drop_last() =~= Seq::<char>::empty());
        assert(value(digits(n).drop_last()) == 0);
    } else {
        lemma_digits_value(n / 10);
        assert(digits(n).drop_last() =~= digits(n / 10));
    }
}

/// A padded numeral stands for the number it was made of, whether zeros or
/// blanks fill it.
pub proof fn lemma_numeral_value(n: nat, width: nat, fill: char)
    requires
        digit_value(fill) == 0,
    ensures
        value(numeral(n, width, fill)) == n,
{
    lemma_digits_value(n);
    if digits(n).len() < width {
        let count = (width - digits(n).len()) as nat;
        lemma_filler_value(count, fill);
        lemma_value_after_filler(filler(count, fill), digits(n));
    }
}

/// Different numbers have different numerals.
pub proof fn lemma_numeral_injective(a: nat, b: nat, width: nat, fill: char)
    requires
        digit_value(fill) == 0,
        numeral(a, width, fill) == numeral(b, width, fill),
    ensures
        a == b,
{
    lemma_numeral_value(a, width, fill);
    lemma_numeral_value(b, width, fill);
}

/// A numeral has as many digits as the number needs.
pub proof fn lemma_digits_len(n: nat)
    ensures
        digits(n).len() >= 1,
        n < 10 ==> digits(n).len() == 1,
        10 <= n < 100 ==> digits(n).len() == 2,
        100 <= n < 1000 ==> digits(n).len() == 3,
        1000 <= n < 10000 ==> digits(n).len() == 4,
    decreases n,
{
    if n >= 10 {
        lemma_digits_len(n / 10);
    }
}

/// No numeral holds `c`, unless `c` is a digit or the fill.
pub proof fn lemma_numeral_chars(n: nat, width: nat, fill: char, c: char)
    requires
        c != fill,
        digit_value(c) == 0,
        c != '0',
    ensures
        !numeral(n, width, fill).contains(c),
{
    lemma_digits_chars(n, c);
    let text = numeral(n, width, fill);
    if text.contains(c) {
        let i = choose|i: int| 0 <= i < text.len() && text[i] == c;
        if digits(n).len() < width {
            let count = width - digits(n).len();
            if i >= count {
                assert(digits(n)[i - count] == c);
            }
        }
    }
}

proof fn lemma_digits_chars(n: nat, c: char)
    requires
        digit_value(c) == 0,
        c != '0',
    ensures
        !digits(n).contains(c),
    decreases n,
{
    if n >= 10 {
        lemma_digits_chars(n / 10, c);
        let text = digits(n);
        if text.contains(c) {
            let i = choose|i: int| 0 <= i < text.len() && text[i] == c;
            if i < text.len() - 1 {
                assert(digits(n / 10)[i] == c);
            }
        }
    }
}

/// The text of one digit.
fn digit_text(d: u64) -> (text: &'static str)
    requires
        d < 10,
    ensures
        text@ == seq![digit(d as nat)],
{
    proof {
        reveal_strlit("0");
        reveal_strlit("1");
        reveal_strlit("2");
        reveal_strlit("3");
        reveal_strlit("4");
        reveal_strlit("5");
        reveal_strlit("6");
        reveal_strlit("7");
        reveal_strlit("8");
        reveal_strlit("9");
    }
    let text = if d == 0 {
        "0"
    } else if d == 1 {
        "1"
    } else if d == 2 {
        "2"
    } else if d == 3 {
        "3"
    } else if d == 4 {
        "4"
    } else if d == 5 {
        "5"
    } else if d == 6 {
        "6"
    } else if d == 7 {
        "7"
    } else if d == 8 {
        "8"
    } else {
        "9"
    };
    assert(text@ =~= seq![digit(d as nat)]);
    text
}

/// How many digits the numeral of `n` has.
fn digit_count(n: u64) -> (count: u64)
    ensures
        count == digits(n as nat).len(),
{
    let mut count: u64 = 1;
    let mut rest: u64 = n;
    while rest >= 10
        invariant
            count + digits(rest as nat).len() == digits(n as nat).len() + 1,
            count + rest <= n + 1,
        decreases rest,
    {
        rest = rest / 10;
        count += 1;
    }
    count
}

/// Appends the digits of `n` to `out`.
fn append_digits(out: &mut String, n: u64)
    ensures
        final(out)@ == old(out)@ + digits(n as nat),
    decreases n,
{
    if n >= 10 {
        append_digits(out, n / 10);
    }
    out.append(digit_text(n % 10));
    assert(out@ =~= old(out)@ + digits(n as nat));
}

/// Appends to `out` the numeral of `n`, at least `width` long, filled in
/// front with the one character of `fill`.
pub(crate) fn append_numeral(out: &mut String, n: u64, width: usize, fill: &str)
    requires
        fill@.len() == 1,
    ensures
        final(out)@ == old(out)@ + numeral(n as nat, width as nat, fill@[0]),
{
    let count = digit_count(n);
    let ghost start = out@;
    let mut have: u64 = count;
    while have < width as u64
        invariant
            count <= have,
            have <= width || have == count,
            fill@.len() == 1,
            out@ == start + filler((have - count) as nat, fill@[0]),
        decreases width - have,
    {
        out.append(fill);
        have += 1;
        assert(out@ =~= start + filler((have - count) as nat, fill@[0]));
    }
    let ghost padded = out@;
    append_digits(out, n);
    proof {
        if count >= width {
            assert(padded =~= start);
        }
        assert(out@ =~= start + numeral(n as nat, width as nat, fill@[0]));
    }
}

} // verus!
