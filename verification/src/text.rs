//! Small operations on text, stated over sequences of characters.

use vstd::prelude::*;
use vstd::string::*;

verus! {

/// Whether `needle` stands in `text` from position `start` on.
pub open spec fn occurs_at(needle: Seq<char>, text: Seq<char>, start: int) -> bool {
    &&& 0 <= start
    &&& start + needle.len() <= text.len()
    &&& text.subrange(start, start + needle.len()) == needle
}

/// Whether `needle` stands somewhere in `text`.
pub open spec fn occurs_in(needle: Seq<char>, text: Seq<char>) -> bool {
    exists|start: int| occurs_at(needle, text, start)
}

/// The decimal digit that stands for `d`, for `d` below ten.
pub open spec fn digit_char(d: nat) -> char {
    if d == 0 {
        '0'
    } else if d == 1 {
        '1'
    } else if d == 2 {
        '2'
    } else if d == 3 {
        '3'
    } else if d == 4 {
        '4'
    } else if d == 5 {
        '5'
    } else if d == 6 {
        '6'
    } else if d == 7 {
        '7'
    } else if d == 8 {
        '8'
    } else {
        '9'
    }
}

/// The decimal numeral of `n`, without leading zeros.
pub open spec fn decimal(n: nat) -> Seq<char>
    decreases n,
{
    if n < 10 {
        seq![digit_char(n)]
    } else {
        decimal(n / 10).push(digit_char(n % 10))
    }
}

/// Collects the characters of `text`.
pub fn chars_of(text: &str) -> (chars: Vec<char>)
    ensures
        chars@ == text@,
{
    let mut chars: Vec<char> = Vec::new();
    for c in it: text.chars()
        invariant
            chars@ == it.seq().take(it.index() as int),
            it.seq() == text@,
    {
        chars.push(c);
    }
    chars
}

/// Tells whether `needle` stands in `text` from position `start` on.
fn matches_at(text: &Vec<char>, needle: &Vec<char>, start: usize) -> (same: bool)
    requires
        start + needle.len() <= text.len(),
    ensures
        same == occurs_at(needle@, text@, start as int),
{
    let mut k: usize = 0;
    while k < needle.len()
        invariant
            k <= needle.len(),
            start + needle.len() <= text.len(),
            forall|j: int| 0 <= j < k ==> text@[start + j] == needle@[j],
        decreases needle.len() - k,
    {
        if text[start + k] != needle[k] {
            assert(text@.subrange(start as int, start + needle.len())[k as int] != needle@[k as int]);
            return false;
        }
        k = k + 1;
    }
    assert(text@.subrange(start as int, start + needle.len()) =~= needle@);
    true
}

/// Tells whether `needle` stands somewhere in `text`.
pub fn contains_text(text: &str, needle: &str) -> (found: bool)
    ensures
        found == occurs_in(needle@, text@),
{
    let hay = chars_of(text);
    let pat = chars_of(needle);
    if pat.len() > hay.len() {
        return false;
    }
    if pat.len() == 0 {
        assert(hay@.subrange(0, 0) =~= pat@);
        assert(occurs_at(pat@, hay@, 0));
        return true;
    }
    let last: usize = hay.len() - pat.len();
    let mut start: usize = 0;
    while start <= last
        invariant
            hay@ == text@,
            pat@ == needle@,
            last == hay.len() - pat.len(),
            last < hay.len(),
            start <= last + 1,
            forall|s: int| 0 <= s < start ==> !occurs_at(pat@, hay@, s),
        decreases last + 1 - start,
    {
        if matches_at(&hay, &pat, start) {
            return true;
        }
        start = start + 1;
    }
    false
}

/// Appends `tail` to `head`.
pub fn join(head: String, tail: &str) -> (joined: String)
    ensures
        joined@ == head@ + tail@,
{
    let mut joined = head;
    joined.append(tail);
    joined
}

/// The digit character of `d`, as a text of one character.
fn digit_text(d: u64) -> (digit: &'static str)
    requires
        d < 10,
    ensures
        digit@ == seq![digit_char(d as nat)],
{
    proof {
        reveal_strlit("0");
        reveal_strlit("1");
        reveal_strlit("2");
        reveal_strlit("3");
        reveal_strlit("4");
        reveal_strlit("5");
        reveal_strlit("6");
        reveal_strlit("7");
        reveal_strlit("8");
        reveal_strlit("9");
    }
    let digit = if d == 0 {
        "0"
    } else if d == 1 {
        "1"
    } else if d == 2 {
        "2"
    } else if d == 3 {
        "3"
    } else if d == 4 {
        "4"
    } else if d == 5 {
        "5"
    } else if d == 6 {
        "6"
    } else if d == 7 {
        "7"
    } else if d == 8 {
        "8"
    } else {
        "9"
    };
    assert(digit@ =~= seq![digit_char(d as nat)]);
    digit
}

/// The numeral whose digits are `digits`, the last digit first.
pub open spec fn numeral_of(digits: Seq<u64>) -> Seq<char> {
    Seq::new(digits.len(), |i: int| digit_char(digits[digits.len() - 1 - i] as nat))
}

/// Writes `n` as a decimal numeral.
pub fn decimal_text(n: u64) -> (numeral: String)
    ensures
        numeral@ == decimal(n as nat),
{
    // The digits are found from the last to the first.
    let mut digits: Vec<u64> = Vec::new();
    let mut rest: u64 = n;
    loop
        invariant_except_break
            forall|i: int| 0 <= i < digits@.len() ==> digits@[i] < 10,
            decimal(n as nat) == decimal(rest as nat) + numeral_of(digits@),
        ensures
            forall|i: int| 0 <= i < digits@.len() ==> digits@[i] < 10,
            decimal(n as nat) == numeral_of(digits@),
        decreases rest,
    {
        let d: u64 = rest % 10;
        let ghost before = digits@;
        digits.push(d);
        proof {
            assert(numeral_of(digits@) =~= seq![digit_char(d as nat)] + numeral_of(before));
            if rest >= 10 {
                assert(decimal(rest as nat) + numeral_of(before) =~= decimal((rest / 10) as nat)
                    + numeral_of(digits@));
            } else {
                assert(decimal(rest as nat) + numeral_of(before) =~= numeral_of(digits@));
            }
        }
        if rest < 10 {
            break ;
        }
        rest = rest / 10;
    }
    let mut numeral = String::new();
    let mut i: usize = digits.len();
    while i > 0
        invariant
            i <= digits.len(),
            forall|k: int| 0 <= k < digits@.len() ==> digits@[k] < 10,
            numeral@ == numeral_of(digits@).take(digits.len() - i),
        decreases i,
    {
        i = i - 1;
        numeral.append(digit_text(digits[i]));
        assert(numeral@ =~= numeral_of(digits@).take(digits.len() - i));
    }
    assert(numeral_of(digits@).take(digits.len() as int) =~= numeral_of(digits@));
    numeral
}

} // verus!
