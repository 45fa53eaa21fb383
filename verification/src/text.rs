//! Strings as sequences of characters: splitting at a separator, blank texts, decimal
//! numerals and copies.

use vstd::prelude::*;

verus! {

/// The position of the first `c` in `s`.
pub open spec fn is_first(s: Seq<char>, c: char, i: int) -> bool {
    &&& 0 <= i < s.len()
    &&& s[i] == c
    &&& forall|j: int| 0 <= j < i ==> s[j] != c
}

/// The position of the last `c` in `s`.
pub open spec fn is_last(s: Seq<char>, c: char, i: int) -> bool {
    &&& 0 <= i < s.len()
    &&& s[i] == c
    &&& forall|j: int| i < j < s.len() ==> s[j] != c
}

/// What stands before and after the first `c` of `s`, or `None` where `s` holds no `c`.
pub open spec fn split_first(s: Seq<char>, c: char) -> Option<(Seq<char>, Seq<char>)> {
    if s.contains(c) {
        let i = choose|i: int| is_first(s, c, i);
        Some((s.take(i), s.skip(i + 1)))
    } else {
        None
    }
}

/// What stands before and after the last `c` of `s`, or `None` where `s` holds no `c`.
pub open spec fn split_last(s: Seq<char>, c: char) -> Option<(Seq<char>, Seq<char>)> {
    if s.contains(c) {
        let i = choose|i: int| is_last(s, c, i);
        Some((s.take(i), s.skip(i + 1)))
    } else {
        None
    }
}

/// A text taken apart at its first `c` is put together again by `c`, and the part before it
/// is free of `c`; these two facts fix the parts.
pub proof fn lemma_split_first(s: Seq<char>, c: char, before: Seq<char>, after: Seq<char>)
    ensures
        split_first(s, c) == Some((before, after)) <==> (s == before + seq![c] + after
            && !before.contains(c)),
{
    if s.contains(c) {
        lemma_first_exists(s, c);
        let i = choose|i: int| is_first(s, c, i);
        assert(s == s.take(i) + seq![c] + s.skip(i + 1));
        if s == before + seq![c] + after && !before.contains(c) {
            assert(s[before.len() as int] == c);
            assert(forall|j: int| 0 <= j < before.len() ==> s[j] == before[j] && before.contains(before[j]));
            assert(i == before.len());
            assert(before == s.take(i));
            assert(after == s.skip(i + 1));
        }
    } else if s == before + seq![c] + after {
        assert(s[before.len() as int] == c);
    }
}

/// A text taken apart at its last `c` is put together again by `c`, and the part after it is
/// free of `c`; these two facts fix the parts.
pub proof fn lemma_split_last(s: Seq<char>, c: char, before: Seq<char>, after: Seq<char>)
    ensures
        split_last(s, c) == Some((before, after)) <==> (s == before + seq![c] + after
            && !after.contains(c)),
{
    if s.contains(c) {
        lemma_last_exists(s, c);
        let i = choose|i: int| is_last(s, c, i);
        assert(s == s.take(i) + seq![c] + s.skip(i + 1));
        let rest = s.skip(i + 1);
        assert forall|k: int| 0 <= k < rest.len() implies rest[k] != c by {
            assert(rest[k] == s[i + 1 + k]);
        }
        if s == before + seq![c] + after && !after.contains(c) {
            let n = before.len() as int;
            assert(s[n] == c);
            assert forall|j: int| n < j < s.len() implies s[j] != c by {
                assert(s[j] == after[j - n - 1]);
                assert(after.contains(after[j - n - 1]));
            }
            assert(i == n);
            assert(before == s.take(i));
            assert(after == s.skip(i + 1));
        }
    } else if s == before + seq![c] + after {
        assert(s[before.len() as int] == c);
    }
}

proof fn lemma_first_exists(s: Seq<char>, c: char)
    requires
        s.contains(c),
    ensures
        exists|i: int| is_first(s, c, i),
    decreases s.len(),
{
    if s[0] == c {
        assert(is_first(s, c, 0));
    } else {
        let k = choose|k: int| 0 <= k < s.len() && s[k] == c;
        assert(s.drop_first()[k - 1] == c);
        lemma_first_exists(s.drop_first(), c);
        let i = choose|i: int| is_first(s.drop_first(), c, i);
        assert forall|j: int| 0 <= j < i + 1 implies s[j] != c by {
            if j > 0 {
                assert(s[j] == s.drop_first()[j - 1]);
            }
        }
        assert(is_first(s, c, i + 1));
    }
}

proof fn lemma_last_exists(s: Seq<char>, c: char)
    requires
        s.contains(c),
    ensures
        exists|i: int| is_last(s, c, i),
    decreases s.len(),
{
    if s.last() == c {
        assert(is_last(s, c, s.len() - 1));
    } else {
        let k = choose|k: int| 0 <= k < s.len() && s[k] == c;
        assert(s.drop_last()[k] == c);
        lemma_last_exists(s.drop_last(), c);
        let i = choose|i: int| is_last(s.drop_last(), c, i);
        assert forall|j: int| i < j < s.len() implies s[j] != c by {
            if j < s.len() - 1 {
                assert(s[j] == s.drop_last()[j]);
            }
        }
        assert(is_last(s, c, i));
    }
}

/// Splits `s` at the first `c`, which belongs to neither part.
pub fn split_once(s: &str, c: char) -> (parts: Option<(&str, &str)>)
    ensures
        match parts {
            Some((before, after)) => split_first(s@, c) == Some((before@, after@)),
            None => split_first(s@, c) is None,
        },
{
    let len: usize = s.unicode_len();
    let mut at: usize = 0;
    for d in it: s.chars()
        invariant
            it.seq() == s@,
            at == it.index(),
            at <= len,
            len == s@.len(),
            forall|j: int| 0 <= j < at ==> s@[j] != c,
    {
        if d == c {
            let before = s.substring_char(0, at);
            let after = s.substring_char(at + 1, len);
            proof {
                assert(s@ == before@ + seq![c] + after@);
                lemma_split_first(s@, c, before@, after@);
            }
            return Some((before, after));
        }
        at = at + 1;
    }
    None
}

/// Splits `s` at the last `c`, which belongs to neither part.
pub fn rsplit_once(s: &str, c: char) -> (parts: Option<(&str, &str)>)
    ensures
        match parts {
            Some((before, after)) => split_last(s@, c) == Some((before@, after@)),
            None => split_last(s@, c) is None,
        },
{
    let len: usize = s.unicode_len();
    let mut at: usize = 0;
    let mut last: Option<usize> = None;
    for d in it: s.chars()
        invariant
            it.seq() == s@,
            at == it.index(),
            at <= len,
            len == s@.len(),
            match last {
                Some(i) => is_last(s@.take(at as int), c, i as int),
                None => forall|j: int| 0 <= j < at ==> s@[j] != c,
            },
    {
        if d == c {
            last = Some(at);
        }
        at = at + 1;
    }
    assert(s@.take(at as int) == s@);
    match last {
        Some(i) => {
            let before = s.substring_char(0, i);
            let after = s.substring_char(i + 1, len);
            proof {
                assert(s@ == before@ + seq![c] + after@);
                lemma_split_last(s@, c, before@, after@);
            }
            Some((before, after))
        },
        None => None,
    }
}

/// The characters with the Unicode property White_Space.
pub open spec fn is_white_space(c: char) -> bool {
    ||| '\u{0009}' <= c <= '\u{000D}'
    ||| c == '\u{0020}'
    ||| c == '\u{0085}'
    ||| c == '\u{00A0}'
    ||| c == '\u{1680}'
    ||| '\u{2000}' <= c <= '\u{200A}'
    ||| c == '\u{2028}'
    ||| c == '\u{2029}'
    ||| c == '\u{202F}'
    ||| c == '\u{205F}'
    ||| c == '\u{3000}'
}

/// Nothing is left of a blank text once its white space is trimmed away.
pub open spec fn is_blank_text(s: Seq<char>) -> bool {
    forall|i: int| 0 <= i < s.len() ==> is_white_space(#[trigger] s[i])
}

/// Whether `s` is empty or holds white space alone.
pub fn is_blank(s: &str) -> (blank: bool)
    ensures
        blank == is_blank_text(s@),
{
    for c in it: s.chars()
        invariant
            it.seq() == s@,
            forall|i: int| 0 <= i < it.index() ==> is_white_space(#[trigger] s@[i]),
    {
        let white = ('\u{0009}' <= c && c <= '\u{000D}') || c == '\u{0020}' || c == '\u{0085}'
            || c == '\u{00A0}' || c == '\u{1680}' || ('\u{2000}' <= c && c <= '\u{200A}')
            || c == '\u{2028}' || c == '\u{2029}' || c == '\u{202F}' || c == '\u{205F}'
            || c == '\u{3000}';
        if !white {
            assert(!is_white_space(s@[it.index()]));
            return false;
        }
    }
    true
}

/// The character that stands for the digit `d`.
pub open spec fn digit_char(d: nat) -> char
    recommends
        d < 10,
{
    ('0' as int + d) as char
}

/// The decimal numeral of `n`, without leading zeros.
pub open spec fn decimal_text(n: nat) -> Seq<char>
    decreases n,
{
    if n < 10 {
        seq![digit_char(n)]
    } else {
        decimal_text(n / 10).push(digit_char(n % 10))
    }
}

fn digit(d: u64) -> (s: &'static str)
    requires
        d < 10,
    ensures
        s@ == seq![digit_char(d as nat)],
{
    proof {
        reveal_strlit("0");
        reveal_strlit("1");
        reveal_strlit("2");
        reveal_strlit("3");
        reveal_strlit("4");
        reveal_strlit("5");
        reveal_strlit("6");
        reveal_strlit("7");
        reveal_strlit("8");
        reveal_strlit("9");
    }
    match d {
        0 => "0",
        1 => "1",
        2 => "2",
        3 => "3",
        4 => "4",
        5 => "5",
        6 => "6",
        7 => "7",
        8 => "8",
        _ => "9",
    }
}

/// Writes `n` in decimal.
pub fn decimal(n: u64) -> (s: String)
    ensures
        s@ == decimal_text(n as nat),
    decreases n,
{
    if n < 10 {
        let s = String::from_str(digit(n));
        s
    } else {
        let mut s = decimal(n / 10);
        s.append(digit(n % 10));
        assert(s@ == decimal_text(n as nat / 10).push(digit_char(n as nat % 10)));
        s
    }
}

/// Copies a list of pairs of strings.
pub fn clone_pairs(pairs: &Vec<(String, String)>) -> (copy: Vec<(String, String)>)
    ensures
        copy@ == pairs@,
{
    let mut copy: Vec<(String, String)> = Vec::new();
    let mut i: usize = 0;
    while i < pairs.len()
        invariant
            i <= pairs.len(),
            copy@ == pairs@.take(i as int),
        decreases pairs.len() - i,
    {
        copy.push((pairs[i].0.clone(), pairs[i].1.clone()));
        assert(pairs@.take(i + 1) == pairs@.take(i as int).push(pairs@[i as int]));
        i = i + 1;
    }
    assert(pairs@.take(i as int) == pairs@);
    copy
}

/// The number that a sequence of decimal digits stands for.
pub open spec fn numeral_value(s: Seq<char>) -> int
    decreases s.len(),
{
    if s.len() == 0 {
        0
    } else {
        10 * numeral_value(s.drop_last()) + (s.last() as int - '0' as int)
    }
}

/// A numeral stands for the number it was written for. It is made of decimal digits, at least
/// one, and of no leading zero, so that two numbers have two numerals.
pub proof fn law_numeral_stands_for_its_number(n: nat)
    ensures
        numeral_value(decimal_text(n)) == n,
        decimal_text(n).len() > 0,
        forall|i: int|
            0 <= i < decimal_text(n).len() ==> '0' <= #[trigger] decimal_text(n)[i] <= '9',
        n > 0 ==> decimal_text(n)[0] != '0',
        n < 10 <==> decimal_text(n).len() == 1,
    decreases n,
{
    reveal_with_fuel(numeral_value, 2);
    if n >= 10 {
        law_numeral_stands_for_its_number(n / 10);
        let s = decimal_text(n);
        assert(s.drop_last() == decimal_text(n / 10));
        assert(s.last() == digit_char(n % 10));
        assert(forall|i: int|
            0 <= i < s.len() - 1 ==> #[trigger] s[i] == decimal_text(n / 10)[i]);
    } else {
        assert(decimal_text(n).drop_last() == Seq::<char>::empty());
    }
}

/// One character makes a text not blank, wherever it stands, if it is not white space.
pub proof fn law_one_character_is_enough(s: Seq<char>, i: int)
    requires
        0 <= i < s.len(),
        !is_white_space(s[i]),
    ensures
        !is_blank_text(s),
{
}

/// The empty text is blank, a text of one character is if that is white space, and a longer one
/// is if both of the parts that it is put together from are.
pub proof fn law_blank_text_is_blank_throughout(one: Seq<char>, other: Seq<char>, c: char)
    ensures
        is_blank_text(Seq::<char>::empty()),
        is_blank_text(one + other) <==> is_blank_text(one) && is_blank_text(other),
        is_blank_text(seq![c]) <==> ({
            let n = c as int;
            ||| 0x9 <= n <= 0xD
            ||| n == 0x20
            ||| n == 0x85
            ||| n == 0xA0
            ||| n == 0x1680
            ||| 0x2000 <= n <= 0x200A
            ||| n == 0x2028
            ||| n == 0x2029
            ||| n == 0x202F
            ||| n == 0x205F
            ||| n == 0x3000
        }),
{
    let both = one + other;
    if is_blank_text(both) {
        assert forall|i: int| 0 <= i < one.len() implies is_white_space(#[trigger] one[i]) by {
            assert(both[i] == one[i]);
        }
        assert forall|i: int| 0 <= i < other.len() implies is_white_space(#[trigger] other[i]) by {
            assert(both[one.len() + i] == other[i]);
        }
    }
    if is_blank_text(one) && is_blank_text(other) {
        assert forall|i: int| 0 <= i < both.len() implies is_white_space(#[trigger] both[i]) by {
            if i < one.len() {
                assert(both[i] == one[i]);
            } else {
                assert(both[i] == other[i - one.len()]);
            }
        }
    }
    assert(seq![c][0] == c);
}

} // verus!
