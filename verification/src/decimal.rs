//! Decimal numerals.

use vstd::prelude::*;

verus! {

/// Whether `c` is one of the digits `0` to `9`.
pub open spec fn is_digit(c: char) -> bool {
    '0' <= c <= '9'
}

/// The value of the digit `c`; zero for any other character.
pub open spec fn digit_value(c: char) -> nat {
    if is_digit(c) {
        (c as u32 - '0' as u32) as nat
    } else {
        0
    }
}

/// Whether `text` is made of digits alone.
pub open spec fn all_digits(text: Seq<char>) -> bool {
    forall|i: int| 0 <= i < text.len() ==> is_digit(#[trigger] text[i])
}

/// The number that the digits of `text` write in base ten; zero for no digits.
pub open spec fn digits_value(text: Seq<char>) -> nat
    decreases text.len(),
{
    if text.len() == 0 {
        0
    } else {
        digits_value(text.drop_last()) * 10 + digit_value(text.last())
    }
}

/// The number that `text` writes, where it is one or more digits and the
/// number fits in 64 bits.
pub open spec fn decimal_u64(text: Seq<char>) -> Option<u64> {
    if text.len() > 0 && all_digits(text) && digits_value(text) <= u64::MAX {
        Some(digits_value(text) as u64)
    } else {
        None
    }
}

/// A numeral is worth at least as much as any of its beginnings.
proof fn lemma_prefix_is_no_more(text: Seq<char>, n: int)
    requires
        0 <= n <= text.len(),
    ensures
        digits_value(text.take(n)) <= digits_value(text),
    decreases text.len(),
{
    if n == text.len() {
        assert(text.take(n) =~= text);
    } else {
        assert(text.drop_last().take(n) =~= text.take(n));
        lemma_prefix_is_no_more(text.drop_last(), n);
    }
}

/// Reads a decimal numeral: one or more digits, nothing else, and a value
/// that fits in 64 bits.
pub fn parse_u64(text: &str) -> (r: Option<u64>)
    ensures
        r == decimal_u64(text@),
{
    let mut value: u64 = 0;
    let mut any = false;
    for c in it: text.chars()
        invariant
            it.seq() == text@,
            any == (it.index() > 0),
            all_digits(text@.take(it.index())),
            digits_value(text@.take(it.index())) == value,
    {
        let ghost k = it.index();
        assert(text@.take(k + 1).drop_last() =~= text@.take(k));
        assert(text@.take(k + 1).last() == c);
        if c < '0' || c > '9' {
            assert(!is_digit(text@[k]));
            return None;
        }
        let d: u64 = (c as u32 - '0' as u32) as u64;
        if value > (u64::MAX - d) / 10 {
            proof {
                lemma_prefix_is_no_more(text@, k + 1);
            }
            return None;
        }
        value = value * 10 + d;
        any = true;
    }
    assert(text@.take(text@.len() as int) =~= text@);
    if any {
        Some(value)
    } else {
        None
    }
}

/// The digit for a value below ten.
pub open spec fn digit_char(value: nat) -> char
    recommends
        value < 10,
{
    (48 + value) as u8 as char
}

/// The decimal numeral of `n`, without leading zeros.
pub open spec fn decimal_text(n: nat) -> Seq<char>
    decreases n,
{
    if n < 10 {
        seq![digit_char(n)]
    } else {
        decimal_text(n / 10).push(digit_char(n % 10))
    }
}

/// The numeral of a number is made of digits, at least one, and writes that
/// number.
pub proof fn lemma_decimal_text_reads_back(n: nat)
    ensures
        decimal_text(n).len() > 0,
        all_digits(decimal_text(n)),
        digits_value(decimal_text(n)) == n,
    decreases n,
{
    let text = decimal_text(n);
    if n < 10 {
        assert(text.drop_last() =~= Seq::<char>::empty());
        assert(digits_value(text.drop_last()) == 0);
        assert(text.last() == digit_char(n));
    } else {
        lemma_decimal_text_reads_back(n / 10);
        assert(text.drop_last() =~= decimal_text(n / 10));
        assert(text.last() == digit_char(n % 10));
    }
}

/// Appends to `out` the decimal numeral of `n`.
pub fn push_decimal(out: &mut String, n: u64)
    ensures
        final(out)@ == old(out)@ + decimal_text(n as nat),
    decreases n,
{
    if n >= 10 {
        push_decimal(out, n / 10);
    }
    let digit = (48u8 + (n % 10) as u8) as char;
    out.push(digit);
    assert(out@ =~= old(out)@ + decimal_text(n as nat));
}

/// The number of digits with which `text` begins.
pub open spec fn digit_run(text: Seq<char>) -> nat
    decreases text.len(),
{
    if text.len() > 0 && is_digit(text.first()) {
        1 + digit_run(text.drop_first())
    } else {
        0
    }
}

/// The number at the beginning of `text` and what follows it: the number
/// that the leading digits write, all of them, where there is at least one
/// and the number fits in 64 bits.
pub open spec fn leading_number(text: Seq<char>) -> Option<(u64, Seq<char>)> {
    let run = digit_run(text) as int;
    match decimal_u64(text.take(run)) {
        Some(n) => Some((n, text.skip(run))),
        None => None,
    }
}

/// Whether `text` does not go on with a digit.
pub open spec fn ends_number(text: Seq<char>) -> bool {
    text.len() == 0 || !is_digit(text.first())
}

/// The leading digits of `text` are digits, they are within the text, and
/// what follows them is no digit.
pub proof fn lemma_digit_run(text: Seq<char>)
    ensures
        digit_run(text) <= text.len(),
        all_digits(text.take(digit_run(text) as int)),
        ends_number(text.skip(digit_run(text) as int)),
    decreases text.len(),
{
    if text.len() > 0 && is_digit(text.first()) {
        let rest = text.drop_first();
        lemma_digit_run(rest);
        let run = digit_run(rest) as int;
        assert(text.skip(run + 1) =~= rest.skip(run));
        assert forall|i: int| 0 <= i < run + 1 implies is_digit(#[trigger] text.take(run + 1)[i]) by {
            if i > 0 {
                assert(text.take(run + 1)[i] == rest.take(run)[i - 1]);
            }
        }
    } else {
        assert(text.skip(0) =~= text);
    }
}

/// Digits followed by something that is no digit are the leading digits.
pub proof fn lemma_digit_run_of_digits(digits: Seq<char>, rest: Seq<char>)
    requires
        all_digits(digits),
        ends_number(rest),
    ensures
        digit_run(digits + rest) == digits.len(),
    decreases digits.len(),
{
    if digits.len() == 0 {
        assert(digits + rest =~= rest);
    } else {
        assert((digits + rest).first() == digits[0]);
        assert((digits + rest).drop_first() =~= digits.drop_first() + rest);
        assert forall|i: int| 0 <= i < digits.drop_first().len() implies is_digit(
            #[trigger] digits.drop_first()[i],
        ) by {
            assert(digits.drop_first()[i] == digits[i + 1]);
        }
        lemma_digit_run_of_digits(digits.drop_first(), rest);
    }
}

/// A numeral followed by something that is no digit is read back as its
/// number, with what follows left over.
pub proof fn lemma_leading_number_of_text(n: u64, rest: Seq<char>)
    requires
        ends_number(rest),
    ensures
        leading_number(decimal_text(n as nat) + rest) == Some((n, rest)),
{
    let digits = decimal_text(n as nat);
    lemma_decimal_text_reads_back(n as nat);
    lemma_digit_run_of_digits(digits, rest);
    assert((digits + rest).take(digits.len() as int) =~= digits);
    assert((digits + rest).skip(digits.len() as int) =~= rest);
}

/// Reads the number at `text[from..]`: its leading digits, all of them.
/// Returns the number and the place after it, or `None` where no digit
/// stands there or the number does not fit in 64 bits.
pub fn read_number(text: &Vec<char>, from: usize) -> (r: Option<(u64, usize)>)
    requires
        from <= text.len(),
    ensures
        match r {
            Some((n, to)) => from < to <= text.len() && leading_number(text@.skip(from as int))
                == Some((n, text@.skip(to as int))),
            None => leading_number(text@.skip(from as int)).is_none(),
        },
{
    let ghost tail = text@.skip(from as int);
    let mut value: u64 = 0;
    let mut overflow = false;
    let mut to: usize = from;
    proof {
        lemma_digit_run(tail);
    }
    while to < text.len() && text[to] >= '0' && text[to] <= '9'
        invariant
            from <= to <= text.len(),
            tail == text@.skip(from as int),
            to - from <= digit_run(tail),
            all_digits(tail.take(to - from)),
            !overflow ==> digits_value(tail.take(to - from)) == value,
            overflow ==> digits_value(tail.take(to - from)) > u64::MAX,
        decreases text.len() - to,
    {
        let c = text[to];
        let ghost k = to - from;
        proof {
            assert(tail[k] == c);
            assert(tail.take(k + 1).drop_last() =~= tail.take(k));
            assert(tail.take(k + 1).last() == c);
            lemma_digit_run_step(tail, k);
        }
        let d: u64 = (c as u32 - '0' as u32) as u64;
        if overflow || value > (u64::MAX - d) / 10 {
            overflow = true;
        } else {
            value = value * 10 + d;
        }
        to = to + 1;
    }
    proof {
        lemma_digit_run_stop(tail, to - from);
        assert(text@.skip(to as int) =~= tail.skip(to - from));
    }
    if to == from || overflow {
        None
    } else {
        Some((value, to))
    }
}

/// Where the first `k` characters of `text` are digits and the next one is
/// too, the leading digits are more than `k`.
proof fn lemma_digit_run_step(text: Seq<char>, k: int)
    requires
        0 <= k < text.len(),
        k <= digit_run(text),
        is_digit(text[k]),
    ensures
        k + 1 <= digit_run(text),
    decreases k,
{
    if k > 0 {
        assert(text.drop_first()[k - 1] == text[k]);
        lemma_digit_run_step(text.drop_first(), k - 1);
    }
}

/// Where the first `k` characters of `text` are leading digits and the next
/// one is none, the leading digits are `k`.
proof fn lemma_digit_run_stop(text: Seq<char>, k: int)
    requires
        0 <= k <= text.len(),
        k <= digit_run(text),
        k == text.len() || !is_digit(text[k]),
    ensures
        digit_run(text) == k,
    decreases k,
{
    if k > 0 {
        if k < text.len() {
            assert(text.drop_first()[k - 1] == text[k]);
        }
        lemma_digit_run_stop(text.drop_first(), k - 1);
    }
}

} // verus!
