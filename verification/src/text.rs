//! Small text utilities: decimal numerals and character search.

use vstd::prelude::*;
use vstd::string::*;

verus! {

/// The character that stands for the digit `d`.
pub open spec fn digit_char(d: nat) -> char {
    if d == 0 {
        '0'
    } else if d == 1 {
        '1'
    } else if d == 2 {
        '2'
    } else if d == 3 {
        '3'
    } else if d == 4 {
        '4'
    } else if d == 5 {
        '5'
    } else if d == 6 {
        '6'
    } else if d == 7 {
        '7'
    } else if d == 8 {
        '8'
    } else {
        '9'
    }
}

/// The decimal numeral of `n`: no sign, no leading zero, `"0"` for zero.
pub open spec fn decimal_digits(n: nat) -> Seq<char>
    decreases n,
{
    if n < 10 {
        seq![digit_char(n)]
    } else {
        decimal_digits(n / 10).push(digit_char(n % 10))
    }
}

/// The decimal numeral of `i`, with a leading `-` when `i` is negative.
pub open spec fn decimal(i: int) -> Seq<char> {
    if i < 0 {
        seq!['-'] + decimal_digits((-i) as nat)
    } else {
        decimal_digits(i as nat)
    }
}

fn digit_text(d: u64) -> (text: &'static str)
    requires
        d < 10,
    ensures
        text@ == seq![digit_char(d as nat)],
{
    proof {
        reveal_strlit("0");
        reveal_strlit("1");
        reveal_strlit("2");
        reveal_strlit("3");
        reveal_strlit("4");
        reveal_strlit("5");
        reveal_strlit("6");
        reveal_strlit("7");
        reveal_strlit("8");
        reveal_strlit("9");
    }
    let text = if d == 0 {
        "0"
    } else if d == 1 {
        "1"
    } else if d == 2 {
        "2"
    } else if d == 3 {
        "3"
    } else if d == 4 {
        "4"
    } else if d == 5 {
        "5"
    } else if d == 6 {
        "6"
    } else if d == 7 {
        "7"
    } else if d == 8 {
        "8"
    } else {
        "9"
    };
    text
}

/// Writes `n` as a decimal numeral.
pub fn unsigned_decimal(n: u64) -> (numeral: String)
    ensures
        numeral@ == decimal_digits(n as nat),
{
    let mut rest: u64 = n / 10;
    let mut numeral: String = String::from_str(digit_text(n % 10));
    while rest > 0
        invariant
            decimal_digits(n as nat) == if rest == 0 {
                numeral@
            } else {
                decimal_digits(rest as nat) + numeral@
            },
        decreases rest,
    {
        numeral = String::from_str(digit_text(rest % 10)).concat(numeral.as_str());
        rest = rest / 10;
    }
    numeral
}

/// Writes `n` as a decimal numeral, with a leading `-` when it is negative.
pub fn signed_decimal(n: i32) -> (numeral: String)
    ensures
        numeral@ == decimal(n as int),
{
    if n < 0 {
        proof {
            reveal_strlit("-");
        }
        let magnitude: u64 = (-(n as i64)) as u64;
        let digits = unsigned_decimal(magnitude);
        let numeral = String::from_str("-").concat(digits.as_str());
        numeral
    } else {
        unsigned_decimal(n as u64)
    }
}

/// Whether `wanted` occurs anywhere in `text`.
pub fn contains_char(text: &str, wanted: char) -> (found: bool)
    ensures
        found == text@.contains(wanted),
{
    for c in it: text.chars()
        invariant
            it.seq() == text@,
            forall|j: int| 0 <= j < it.index() ==> text@[j] != wanted,
    {
        if c == wanted {
            return true;
        }
    }
    false
}

/// The position of the last `wanted` in `text`, or -1 where there is none.
pub open spec fn last_index_of(text: Seq<char>, wanted: char) -> int
    decreases text.len(),
{
    if text.len() == 0 {
        -1
    } else if text.last() == wanted {
        text.len() - 1
    } else {
        last_index_of(text.drop_last(), wanted)
    }
}

/// The last `wanted` in `text` is a `wanted`, and none follows it.
pub proof fn lemma_last_index_of(text: Seq<char>, wanted: char)
    ensures
        -1 <= last_index_of(text, wanted) < text.len(),
        last_index_of(text, wanted) >= 0 ==> text[last_index_of(text, wanted)] == wanted,
        forall|k: int| last_index_of(text, wanted) < k < text.len() ==> text[k] != wanted,
    decreases text.len(),
{
    if text.len() > 0 && text.last() != wanted {
        let shorter = text.drop_last();
        lemma_last_index_of(shorter, wanted);
        assert forall|k: int| last_index_of(text, wanted) < k < text.len() implies text[k]
            != wanted by {
            if k < shorter.len() {
                assert(shorter[k] == text[k]);
            }
        }
    }
}

/// The position of the last `wanted` among `chars`.
pub fn find_last(chars: &Vec<char>, wanted: char) -> (found: Option<usize>)
    ensures
        match found {
            Some(at) => at as int == last_index_of(chars@, wanted),
            None => last_index_of(chars@, wanted) == -1,
        },
{
    let mut end: usize = chars.len();
    assert(chars@.take(end as int) =~= chars@);
    while end > 0
        invariant
            end <= chars.len(),
            last_index_of(chars@, wanted) == last_index_of(chars@.take(end as int), wanted),
        decreases end,
    {
        if chars[end - 1] == wanted {
            return Some(end - 1);
        }
        assert(chars@.take(end as int).drop_last() =~= chars@.take(end - 1));
        end = end - 1;
    }
    None
}

/// The characters of `text`, one by one.
pub fn to_chars(text: &str) -> (chars: Vec<char>)
    ensures
        chars@ == text@,
{
    let mut chars: Vec<char> = Vec::new();
    for c in it: text.chars()
        invariant
            it.seq() == text@,
            chars@ == text@.take(it.index()),
    {
        chars.push(c);
    }
    chars
}

} // verus!
