//! Decimal text of unsigned integers: the form in which a correlation id
//! travels on the wire.
use vstd::prelude::*;
use vstd::string::*;

verus! {

/// The character that stands for one decimal digit.
pub open spec fn digit_char(d: nat) -> char {
    if d == 0 {
        '0'
    } else if d == 1 {
        '1'
    } else if d == 2 {
        '2'
    } else if d == 3 {
        '3'
    } else if d == 4 {
        '4'
    } else if d == 5 {
        '5'
    } else if d == 6 {
        '6'
    } else if d == 7 {
        '7'
    } else if d == 8 {
        '8'
    } else {
        '9'
    }
}

/// Whether a character is one of `0` to `9`.
pub open spec fn is_digit(c: char) -> bool {
    c == '0' || c == '1' || c == '2' || c == '3' || c == '4' || c == '5' || c == '6' || c == '7'
        || c == '8' || c == '9'
}

/// The number that a digit character stands for; zero for any other character.
pub open spec fn digit_value(c: char) -> nat {
    if c == '1' {
        1
    } else if c == '2' {
        2
    } else if c == '3' {
        3
    } else if c == '4' {
        4
    } else if c == '5' {
        5
    } else if c == '6' {
        6
    } else if c == '7' {
        7
    } else if c == '8' {
        8
    } else if c == '9' {
        9
    } else {
        0
    }
}

/// The shortest decimal numeral of `n`: no sign, no leading zero, `"0"` for zero.
pub open spec fn decimal(n: nat) -> Seq<char>
    decreases n,
{
    if n < 10 {
        seq![digit_char(n)]
    } else {
        decimal(n / 10).push(digit_char(n % 10))
    }
}

/// Whether every character of `s` is a decimal digit.
pub open spec fn all_digits(s: Seq<char>) -> bool {
    forall|i: int| 0 <= i < s.len() ==> is_digit(#[trigger] s[i])
}

/// Whether `s` is the shortest decimal numeral of some number.
pub open spec fn is_decimal(s: Seq<char>) -> bool {
    &&& s.len() > 0
    &&& all_digits(s)
    &&& (s.len() > 1 ==> s[0] != '0')
}

/// The number that a run of digits denotes, read most significant digit first.
pub open spec fn numeral_value(s: Seq<char>) -> nat
    decreases s.len(),
{
    if s.len() == 0 {
        0
    } else {
        numeral_value(s.drop_last()) * 10 + digit_value(s.last())
    }
}

/// The number that `s` is the shortest numeral of, where it fits in 64 bits.
pub open spec fn numeral_of(s: Seq<char>) -> Option<u64> {
    if is_decimal(s) && numeral_value(s) <= u64::MAX {
        Some(numeral_value(s) as u64)
    } else {
        None
    }
}

/// `decimal` only ever produces shortest numerals.
pub proof fn lemma_decimal_is_decimal(n: nat)
    ensures
        is_decimal(decimal(n)),
        n > 0 ==> decimal(n)[0] != '0',
    decreases n,
{
    if n >= 10 {
        lemma_decimal_is_decimal(n / 10);
        let head = decimal(n / 10);
        let s = decimal(n);
        assert(s == head.push(digit_char(n % 10)));
        assert(s[0] == head[0]);
        assert forall|i: int| 0 <= i < s.len() implies is_digit(#[trigger] s[i]) by {
            if i < head.len() {
                assert(s[i] == head[i]);
            }
        }
    }
}

/// Reading back the numeral of `n` gives `n`.
pub proof fn lemma_value_of_decimal(n: nat)
    ensures
        numeral_value(decimal(n)) == n,
    decreases n,
{
    if n < 10 {
        let s = decimal(n);
        assert(s.drop_last() =~= Seq::<char>::empty());
        assert(numeral_value(s.drop_last()) == 0);
    } else {
        lemma_value_of_decimal(n / 10);
        let s = decimal(n);
        assert(s.drop_last() =~= decimal(n / 10));
        assert(s.last() == digit_char(n % 10));
    }
}

/// A run of digits that does not start with `0` denotes a positive number.
proof fn lemma_value_positive(s: Seq<char>)
    requires
        s.len() > 0,
        all_digits(s),
        s[0] != '0',
    ensures
        numeral_value(s) > 0,
    decreases s.len(),
{
    if s.len() == 1 {
        assert(s.drop_last() =~= Seq::<char>::empty());
        assert(numeral_value(s.drop_last()) == 0);
        assert(is_digit(s[0]));
    } else {
        let head = s.drop_last();
        assert forall|i: int| 0 <= i < head.len() implies is_digit(#[trigger] head[i]) by {
            assert(head[i] == s[i]);
        }
        assert(head[0] == s[0]);
        lemma_value_positive(head);
    }
}

/// A shortest numeral is the numeral of the number it denotes.
pub proof fn lemma_decimal_of_value(s: Seq<char>)
    requires
        is_decimal(s),
    ensures
        decimal(numeral_value(s)) == s,
    decreases s.len(),
{
    let n: nat = numeral_value(s);
    let head = s.drop_last();
    assert(is_digit(s.last()));
    assert(digit_char(digit_value(s.last())) == s.last());
    if s.len() == 1 {
        assert(head =~= Seq::<char>::empty());
        assert(numeral_value(head) == 0);
        assert(decimal(n) =~= s);
    } else {
        assert forall|i: int| 0 <= i < head.len() implies is_digit(#[trigger] head[i]) by {
            assert(head[i] == s[i]);
        }
        assert(head[0] == s[0]);
        lemma_value_positive(head);
        lemma_decimal_of_value(head);
        let h: nat = numeral_value(head);
        let d: nat = digit_value(s.last());
        assert(n == h * 10 + d);
        assert(n / 10 == h && n % 10 == d);
        assert(decimal(n) == decimal(h).push(digit_char(d)));
        assert(head.push(s.last()) =~= s);
    }
}

/// Different numbers have different numerals.
pub proof fn lemma_decimal_injective(a: nat, b: nat)
    requires
        decimal(a) == decimal(b),
    ensures
        a == b,
{
    lemma_value_of_decimal(a);
    lemma_value_of_decimal(b);
}

/// `numeral_of` reads exactly the numerals that `decimal` writes.
pub proof fn lemma_numeral_of_decimal(s: Seq<char>, n: u64)
    ensures
        numeral_of(s) == Some(n) <==> s == decimal(n as nat),
{
    if s == decimal(n as nat) {
        lemma_decimal_is_decimal(n as nat);
        lemma_value_of_decimal(n as nat);
    }
    if numeral_of(s) == Some(n) {
        lemma_decimal_of_value(s);
    }
}

/// Extending a run of digits never makes the number it denotes smaller.
proof fn lemma_value_grows(s: Seq<char>, k: int)
    requires
        0 <= k <= s.len(),
    ensures
        numeral_value(s.take(k)) <= numeral_value(s),
    decreases s.len() - k,
{
    if k < s.len() {
        lemma_value_grows(s, k + 1);
        assert(s.take(k + 1).drop_last() =~= s.take(k));
    } else {
        assert(s.take(k) =~= s);
    }
}

/// The text of one decimal digit.
fn digit_text(d: u64) -> (text: &'static str)
    requires
        d < 10,
    ensures
        text@ == seq![digit_char(d as nat)],
{
    proof {
        reveal_strlit("0");
        reveal_strlit("1");
        reveal_strlit("2");
        reveal_strlit("3");
        reveal_strlit("4");
        reveal_strlit("5");
        reveal_strlit("6");
        reveal_strlit("7");
        reveal_strlit("8");
        reveal_strlit("9");
    }
    let text = if d == 0 {
        "0"
    } else if d == 1 {
        "1"
    } else if d == 2 {
        "2"
    } else if d == 3 {
        "3"
    } else if d == 4 {
        "4"
    } else if d == 5 {
        "5"
    } else if d == 6 {
        "6"
    } else if d == 7 {
        "7"
    } else if d == 8 {
        "8"
    } else {
        "9"
    };
    assert(text@ =~= seq![digit_char(d as nat)]);
    text
}

/// The number behind one character, if it is a decimal digit.
fn digit_of(c: char) -> (d: Option<u64>)
    ensures
        d is Some <==> is_digit(c),
        d matches Some(v) ==> v == digit_value(c) && v < 10,
{
    if c == '0' {
        Some(0)
    } else if c == '1' {
        Some(1)
    } else if c == '2' {
        Some(2)
    } else if c == '3' {
        Some(3)
    } else if c == '4' {
        Some(4)
    } else if c == '5' {
        Some(5)
    } else if c == '6' {
        Some(6)
    } else if c == '7' {
        Some(7)
    } else if c == '8' {
        Some(8)
    } else if c == '9' {
        Some(9)
    } else {
        None
    }
}

/// Writes `n` as its shortest decimal numeral.
pub fn to_decimal(n: u64) -> (text: String)
    ensures
        text@ == decimal(n as nat),
    decreases n,
{
    if n < 10 {
        String::from_str(digit_text(n))
    } else {
        let mut text = to_decimal(n / 10);
        text.append(digit_text(n % 10));
        assert(text@ =~= decimal(n as nat));
        text
    }
}

/// Reads a shortest decimal numeral that fits in 64 bits.
///
/// Anything else is turned down: the empty text, a sign, a leading zero,
/// a character that is no digit, a number past `u64::MAX`.
pub fn parse_decimal(text: &str) -> (parsed: Option<u64>)
    ensures
        match parsed {
            Some(n) => text@ == decimal(n as nat),
            None => forall|n: u64| text@ != decimal(n as nat),
        },
        parsed == numeral_of(text@),
{
    proof {
        assert forall|n: u64| numeral_of(text@) == Some(n) <==> text@ == decimal(n as nat) by {
            lemma_numeral_of_decimal(text@, n);
        }
    }
    let len: usize = text.unicode_len();
    if len == 0 {
        proof {
            assert forall|n: u64| text@ != decimal(n as nat) by {
                lemma_decimal_is_decimal(n as nat);
            }
        }
        return None;
    }
    let mut value: u64 = 0;
    let mut i: usize = 0;
    while i < len
        invariant
            len == text@.len(),
            0 <= i <= len,
            all_digits(text@.take(i as int)),
            i > 1 ==> text@[0] != '0',
            value == numeral_value(text@.take(i as int)),
        decreases len - i,
    {
        let c: char = text.get_char(i);
        let d: u64 = match digit_of(c) {
            Some(d) => d,
            None => {
                proof {
                    assert forall|n: u64| text@ != decimal(n as nat) by {
                        lemma_decimal_is_decimal(n as nat);
                    }
                }
                return None;
            },
        };
        if i == 1 && text.get_char(0) == '0' {
            proof {
                assert forall|n: u64| text@ != decimal(n as nat) by {
                    lemma_decimal_is_decimal(n as nat);
                }
            }
            return None;
        }
        proof {
            let next = text@.take(i + 1);
            assert(next.drop_last() =~= text@.take(i as int));
            assert(next.last() == c);
            assert forall|j: int| 0 <= j < next.len() implies is_digit(#[trigger] next[j]) by {
                if j < i {
                    assert(text@.take(i as int)[j] == next[j]);
                }
            }
            lemma_value_grows(text@, i + 1);
        }
        if value > (u64::MAX - d) / 10 {
            proof {
                assert(numeral_value(text@) > u64::MAX);
                assert forall|n: u64| text@ != decimal(n as nat) by {
                    lemma_value_of_decimal(n as nat);
                }
            }
            return None;
        }
        value = value * 10 + d;
        i = i + 1;
    }
    proof {
        assert(text@.take(len as int) =~= text@);
        lemma_decimal_of_value(text@);
    }
    Some(value)
}

} // verus!
