//! Decimal spellings of unsigned integers, written and read.

use vstd::prelude::*;

verus! {

pub open spec fn digit_char(d: nat) -> char
    recommends
        d < 10,
{
    if d == 0 { '0' }
    else if d == 1 { '1' }
    else if d == 2 { '2' }
    else if d == 3 { '3' }
    else if d == 4 { '4' }
    else if d == 5 { '5' }
    else if d == 6 { '6' }
    else if d == 7 { '7' }
    else if d == 8 { '8' }
    else { '9' }
}

pub open spec fn is_digit(c: char) -> bool {
    '0' <= c && c <= '9'
}

pub open spec fn digit_value(c: char) -> nat {
    (c as int - '0' as int) as nat
}

/// The decimal spelling of `n`: no sign, no leading zero, "0" for zero.
pub open spec fn spelling(n: nat) -> Seq<char>
    decreases n,
{
    if n < 10 {
        seq![digit_char(n)]
    } else {
        spelling(n / 10) + seq![digit_char(n % 10)]
    }
}

/// A non-empty run of ASCII digits.
pub open spec fn all_digits(s: Seq<char>) -> bool {
    s.len() > 0 && forall|i: int| 0 <= i < s.len() ==> is_digit(#[trigger] s[i])
}

/// The number a run of digits spells, read left to right.
pub open spec fn value(s: Seq<char>) -> nat
    decreases s.len(),
{
    if s.len() == 0 {
        0
    } else {
        value(s.drop_last()) * 10 + digit_value(s.last())
    }
}

fn digit_str(d: u64) -> (s: &'static str)
    requires
        d < 10,
    ensures
        s@ == seq![digit_char(d as nat)],
{
    proof {
        reveal_strlit("0");
        reveal_strlit("1");
        reveal_strlit("2");
        reveal_strlit("3");
        reveal_strlit("4");
        reveal_strlit("5");
        reveal_strlit("6");
        reveal_strlit("7");
        reveal_strlit("8");
        reveal_strlit("9");
    }
    if d == 0 { "0" }
    else if d == 1 { "1" }
    else if d == 2 { "2" }
    else if d == 3 { "3" }
    else if d == 4 { "4" }
    else if d == 5 { "5" }
    else if d == 6 { "6" }
    else if d == 7 { "7" }
    else if d == 8 { "8" }
    else { "9" }
}

/// The decimal spelling of `n`.
pub fn to_decimal(n: u64) -> (text: String)
    ensures
        text@ == spelling(n as nat),
{
    let mut rest = n;
    let mut tail = String::new();
    while rest >= 10
        invariant
            spelling(n as nat) == spelling(rest as nat) + tail@,
        decreases rest,
    {
        let d = rest % 10;
        let head = String::from_str(digit_str(d));
        proof {
            assert(spelling(rest as nat) == spelling((rest / 10) as nat) + seq![digit_char((rest % 10) as nat)]);
            assert(spelling(rest as nat) + tail@ == spelling((rest / 10) as nat) + (seq![digit_char((rest % 10) as nat)] + tail@));
        }
        tail = head.concat(tail.as_str());
        rest = rest / 10;
    }
    let head = String::from_str(digit_str(rest));
    head.concat(tail.as_str())
}

/// Reads `text` as a decimal number: `Some` exactly when it is a non-empty run
/// of ASCII digits whose value fits in a `u64`.
pub fn parse_decimal(text: &str) -> (n: Option<u64>)
    ensures
        n is Some <==> all_digits(text@) && value(text@) <= u64::MAX,
        n matches Some(v) ==> v == value(text@),
{
    let len = text.unicode_len();
    if len == 0 {
        return None;
    }
    let mut acc: u64 = 0;
    let mut i: usize = 0;
    while i < len
        invariant
            len == text@.len(),
            0 <= i <= len,
            acc == value(text@.take(i as int)),
            forall|j: int| 0 <= j < i ==> is_digit(#[trigger] text@[j]),
        decreases len - i,
    {
        let c = text.get_char(i);
        if !('0' <= c && c <= '9') {
            return None;
        }
        let d = (c as u32 - '0' as u32) as u64;
        proof {
            assert(text@.take(i + 1).drop_last() =~= text@.take(i as int));
            assert(text@.take(i + 1).last() == c);
        }
        let scaled = acc.checked_mul(10);
        match scaled {
            Some(m) => {
                let next = m.checked_add(d);
                match next {
                    Some(v) => {
                        acc = v;
                    },
                    None => {
                        proof {
                            lemma_value_grows(text@, i + 1);
                        }
                        return None;
                    },
                }
            },
            None => {
                proof {
                    lemma_value_grows(text@, i + 1);
                }
                return None;
            },
        }
        i = i + 1;
    }
    proof {
        assert(text@.take(len as int) =~= text@);
    }
    Some(acc)
}

proof fn lemma_digit_char_round_trip(d: nat)
    requires
        d < 10,
    ensures
        is_digit(digit_char(d)),
        digit_value(digit_char(d)) == d,
{
}

/// Reading back a spelling gives the number: a spelling is all digits and its
/// value is `n`.
pub proof fn lemma_spelling_reads_back(n: nat)
    ensures
        all_digits(spelling(n)),
        value(spelling(n)) == n,
    decreases n,
{
    if n < 10 {
        lemma_digit_char_round_trip(n);
        assert(spelling(n).drop_last() =~= Seq::<char>::empty());
        assert(value(Seq::<char>::empty()) == 0);
    } else {
        lemma_spelling_reads_back(n / 10);
        lemma_digit_char_round_trip(n % 10);
        let s = spelling(n);
        assert(s.drop_last() =~= spelling(n / 10));
        assert(s.last() == digit_char(n % 10));
        assert((n / 10) * 10 + n % 10 == n);
        assert forall|i: int| 0 <= i < s.len() implies is_digit(#[trigger] s[i]) by {
            if i < s.len() - 1 {
                assert(s[i] == spelling(n / 10)[i]);
            }
        }
    }
}

/// A longer run of digits reads as at least as much as its prefix.
pub proof fn lemma_value_grows(s: Seq<char>, i: int)
    requires
        0 <= i <= s.len(),
    ensures
        value(s.take(i)) <= value(s),
    decreases s.len() - i,
{
    if i < s.len() {
        lemma_value_grows(s, i + 1);
        assert(s.take(i + 1).drop_last() =~= s.take(i));
    } else {
        assert(s.take(i) =~= s);
    }
}

} // verus!
