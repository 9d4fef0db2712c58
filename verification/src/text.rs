//! Small helpers on text that the rest of the crate shares.

use vstd::prelude::*;

verus! {

/// `==` of `str`: true exactly when the two texts hold the same characters.
#[verifier::external_body]
pub(crate) fn same_text(a: &str, b: &str) -> (r: bool)
    ensures
        r == (a@ == b@),
{
    a == b
}

/// Whether `c` is one of the ten decimal digits.
pub open spec fn is_digit(c: char) -> bool {
    '0' <= c <= '9'
}

/// The number that a run of decimal digits denotes, read from the left.
pub open spec fn decimal_value(digits: Seq<char>) -> nat
    decreases digits.len(),
{
    if digits.len() == 0 {
        0
    } else {
        (decimal_value(digits.drop_last()) * 10 + (digits.last() as u32 - '0' as u32)) as nat
    }
}

/// The unsigned integer written by `text`: `text` is non-empty and holds only decimal digits.
pub open spec fn unsigned_of(text: Seq<char>) -> Option<nat> {
    if text.len() > 0 && (forall|i: int| 0 <= i < text.len() ==> is_digit(#[trigger] text[i])) {
        Some(decimal_value(text))
    } else {
        None
    }
}

proof fn lemma_decimal_value_grows(digits: Seq<char>, n: int)
    requires
        0 <= n <= digits.len(),
        forall|i: int| 0 <= i < digits.len() ==> is_digit(#[trigger] digits[i]),
    ensures
        decimal_value(digits.take(n)) <= decimal_value(digits),
    decreases digits.len() - n,
{
    if n == digits.len() {
        assert(digits.take(n) =~= digits);
    } else {
        lemma_decimal_value_grows(digits, n + 1);
        let longer = digits.take(n + 1);
        assert(longer.drop_last() =~= digits.take(n));
        assert(is_digit(digits[n]));
        assert(longer.last() == digits[n]);
    }
}

/// The decimal digit that stands for `d`.
pub open spec fn digit_char(d: nat) -> char
    recommends
        d < 10,
{
    if d == 0 {
        '0'
    } else if d == 1 {
        '1'
    } else if d == 2 {
        '2'
    } else if d == 3 {
        '3'
    } else if d == 4 {
        '4'
    } else if d == 5 {
        '5'
    } else if d == 6 {
        '6'
    } else if d == 7 {
        '7'
    } else if d == 8 {
        '8'
    } else {
        '9'
    }
}

/// The decimal text of `n`, without leading zeros.
pub open spec fn decimal_text(n: nat) -> Seq<char>
    decreases n,
{
    if n < 10 {
        seq![digit_char(n)]
    } else {
        decimal_text(n / 10).push(digit_char(n % 10))
    }
}

/// Reading the decimal text of a number gives the number back.
pub proof fn lemma_decimal_text_reads_back(n: nat)
    ensures
        unsigned_of(decimal_text(n)) == Some(n),
        decimal_text(n).len() > 0,
        n > 0 ==> decimal_text(n)[0] != '0',
    decreases n,
{
    let text = decimal_text(n);
    if n < 10 {
        assert(text.drop_last() =~= Seq::<char>::empty());
        assert(decimal_value(text.drop_last()) == 0);
        assert(text.last() == digit_char(n));
    } else {
        lemma_decimal_text_reads_back(n / 10);
        let front = decimal_text(n / 10);
        assert(text.drop_last() =~= front);
        assert(text.last() == digit_char(n % 10));
        assert(text[0] == front[0]);
        assert forall|i: int| 0 <= i < text.len() implies is_digit(#[trigger] text[i]) by {
            if i < front.len() {
                assert(text[i] == front[i]);
            }
        }
    }
}

/// The text of one decimal digit.
fn digit_str(d: usize) -> (r: &'static str)
    requires
        d < 10,
    ensures
        r@ == seq![digit_char(d as nat)],
{
    proof {
        reveal_strlit("0");
        reveal_strlit("1");
        reveal_strlit("2");
        reveal_strlit("3");
        reveal_strlit("4");
        reveal_strlit("5");
        reveal_strlit("6");
        reveal_strlit("7");
        reveal_strlit("8");
        reveal_strlit("9");
    }
    let r = if d == 0 {
        "0"
    } else if d == 1 {
        "1"
    } else if d == 2 {
        "2"
    } else if d == 3 {
        "3"
    } else if d == 4 {
        "4"
    } else if d == 5 {
        "5"
    } else if d == 6 {
        "6"
    } else if d == 7 {
        "7"
    } else if d == 8 {
        "8"
    } else {
        "9"
    };
    assert(r@ =~= seq![digit_char(d as nat)]);
    r
}

/// Writes `n` in decimal, without leading zeros.
pub fn unsigned_text(n: usize) -> (r: String)
    ensures
        r@ == decimal_text(n as nat),
    decreases n,
{
    if n < 10 {
        digit_str(n).to_owned()
    } else {
        let front = unsigned_text(n / 10);
        let r = front.concat(digit_str(n % 10));
        assert(r@ =~= decimal_text(n as nat));
        r
    }
}

/// Reads an unsigned decimal integer that fits in `usize`.
pub fn parse_unsigned(text: &str) -> (r: Option<usize>)
    ensures
        match unsigned_of(text@) {
            Some(n) if n <= usize::MAX => r == Some(n as usize),
            _ => r is None,
        },
{
    let len = text.unicode_len();
    if len == 0 {
        return None;
    }
    let mut value: usize = 0;
    let mut i: usize = 0;
    while i < len
        invariant
            len == text@.len(),
            0 <= i <= len,
            forall|k: int| 0 <= k < i ==> is_digit(#[trigger] text@[k]),
            value == decimal_value(text@.take(i as int)),
        decreases len - i,
    {
        let c = text.get_char(i);
        if !('0' <= c && c <= '9') {
            return None;
        }
        let digit: usize = (c as u32 - '0' as u32) as usize;
        proof {
            let longer = text@.take(i + 1);
            assert(longer.drop_last() =~= text@.take(i as int));
            assert(longer.last() == c);
        }
        let grown = match value.checked_mul(10) {
            Some(tens) => tens.checked_add(digit),
            None => None,
        };
        match grown {
            Some(next) => {
                value = next;
            },
            None => {
                proof {
                    if unsigned_of(text@) is Some {
                        lemma_decimal_value_grows(text@, i + 1);
                    }
                }
                return None;
            },
        }
        i = i + 1;
    }
    proof {
        assert(text@.take(len as int) =~= text@);
    }
    Some(value)
}

} // verus!
