//! Small operations on text, stated over sequences of characters.

use vstd::prelude::*;

verus! {

/// `text` begins with `prefix`.
pub open spec fn has_prefix(text: Seq<char>, prefix: Seq<char>) -> bool {
    prefix.len() <= text.len() && text.subrange(0, prefix.len() as int) == prefix
}

/// `pattern` stands in `text` at position `at`.
pub open spec fn occurs_at(text: Seq<char>, pattern: Seq<char>, at: int) -> bool {
    0 <= at && at + pattern.len() <= text.len() && text.subrange(at, at + pattern.len())
        == pattern
}

/// `pattern` stands somewhere in `text`.
pub open spec fn occurs_in(text: Seq<char>, pattern: Seq<char>) -> bool {
    exists|at: int| occurs_at(text, pattern, at)
}

/// Whether two texts hold the same characters.
pub fn same_text(a: &str, b: &str) -> (same: bool)
    ensures
        same == (a@ == b@),
{
    let left = a.to_owned();
    let right = b.to_owned();
    left == right
}

/// Whether `text` begins with `prefix`.
pub fn starts_with(text: &str, prefix: &str) -> (yes: bool)
    ensures
        yes == has_prefix(text@, prefix@),
{
    let n = text.unicode_len();
    let m = prefix.unicode_len();
    if m <= n {
        same_text(text.substring_char(0, m), prefix)
    } else {
        false
    }
}

/// What follows `prefix` in `text`, if `text` begins with it.
pub fn strip_prefix<'a>(text: &'a str, prefix: &str) -> (rest: Option<&'a str>)
    ensures
        has_prefix(text@, prefix@) ==> rest.is_some() && text@ == prefix@ + rest.unwrap()@,
        !has_prefix(text@, prefix@) ==> rest.is_none(),
{
    let n = text.unicode_len();
    let m = prefix.unicode_len();
    if m <= n && same_text(text.substring_char(0, m), prefix) {
        let rest = text.substring_char(m, n);
        assert(text@ =~= prefix@ + rest@);
        Some(rest)
    } else {
        None
    }
}

/// Whether `pattern` stands somewhere in `text`.
pub fn contains(text: &str, pattern: &str) -> (found: bool)
    ensures
        found == occurs_in(text@, pattern@),
{
    let n = text.unicode_len();
    let m = pattern.unicode_len();
    if m > n {
        assert forall|at: int| !occurs_at(text@, pattern@, at) by {}
        return false;
    }
    let last = n - m;
    let mut at: usize = 0;
    loop
        invariant_except_break
            n == text@.len(),
            m == pattern@.len(),
            last == n - m,
            at <= last,
            forall|k: int| 0 <= k < at ==> !occurs_at(text@, pattern@, k),
        ensures
            forall|k: int| 0 <= k <= last ==> !occurs_at(text@, pattern@, k),
        decreases last - at,
    {
        if same_text(text.substring_char(at, at + m), pattern) {
            assert(occurs_at(text@, pattern@, at as int));
            return true;
        }
        if at == last {
            break;
        }
        at += 1;
    }
    assert forall|k: int| !occurs_at(text@, pattern@, k) by {}
    false
}

/// The characters of a text.
pub fn chars_of(text: &str) -> (chars: Vec<char>)
    ensures
        chars@ == text@,
{
    let mut chars: Vec<char> = Vec::new();
    for c in it: text.chars()
        invariant
            it.seq() == text@,
            chars@ == text@.take(it.index() as int),
    {
        chars.push(c);
        assert(text@.take(it.index() + 1) =~= text@.take(it.index() as int).push(c));
    }
    assert(text@.take(text@.len() as int) =~= text@);
    chars
}

/// Whether `pattern` stands in `text` at position `at`.
pub fn matches_at(text: &Vec<char>, pattern: &Vec<char>, at: usize) -> (yes: bool)
    ensures
        yes == occurs_at(text@, pattern@, at as int),
{
    let n = text.len();
    let m = pattern.len();
    if at > n || m > n - at {
        return false;
    }
    let mut k: usize = 0;
    while k < m
        invariant
            n == text@.len(),
            m == pattern@.len(),
            at + m <= n,
            k <= m,
            forall|j: int| 0 <= j < k ==> text@[at + j] == pattern@[j],
        decreases m - k,
    {
        if text[at + k] != pattern[k] {
            assert(text@.subrange(at as int, at + m)[k as int] != pattern@[k as int]);
            return false;
        }
        k += 1;
    }
    assert(text@.subrange(at as int, at + m) =~= pattern@);
    true
}

/// `text` with every occurrence of `pattern` taken out. Occurrences are found
/// from the left and do not overlap; an empty pattern takes nothing out.
pub open spec fn without(text: Seq<char>, pattern: Seq<char>) -> Seq<char>
    decreases text.len(),
{
    if pattern.len() == 0 || text.len() < pattern.len() {
        text
    } else if occurs_at(text, pattern, 0) {
        without(text.skip(pattern.len() as int), pattern)
    } else {
        seq![text[0]] + without(text.skip(1), pattern)
    }
}

/// `text` with every occurrence of `pattern` taken out.
pub fn remove_all(text: &Vec<char>, pattern: &Vec<char>) -> (rest: Vec<char>)
    ensures
        rest@ == without(text@, pattern@),
{
    let n = text.len();
    let m = pattern.len();
    let mut rest: Vec<char> = Vec::new();
    let mut i: usize = 0;
    assert(text@.skip(0) =~= text@);
    while i < n
        invariant
            n == text@.len(),
            m == pattern@.len(),
            i <= n,
            without(text@, pattern@) == rest@ + without(text@.skip(i as int), pattern@),
        decreases n - i,
    {
        let ghost tail = text@.skip(i as int);
        let ghost before = rest@;
        if m > 0 && matches_at(text, pattern, i) {
            assert(tail.subrange(0, m as int) =~= text@.subrange(i as int, i + m));
            assert(tail.skip(m as int) =~= text@.skip(i + m));
            i += m;
        } else {
            proof {
                if m > 0 && tail.len() >= m {
                    assert(tail.subrange(0, m as int) =~= text@.subrange(i as int, i + m));
                }
                assert(tail.skip(1) =~= text@.skip(i + 1));
                assert(tail[0] == text@[i as int]);
                if m == 0 || tail.len() < m {
                    assert(without(text@.skip(i + 1), pattern@) == text@.skip(i + 1));
                    assert(tail =~= seq![tail[0]] + text@.skip(i + 1));
                }
            }
            rest.push(text[i]);
            assert(rest@ + without(text@.skip(i + 1), pattern@) =~= before + (seq![tail[0]]
                + without(text@.skip(i + 1), pattern@)));
            i += 1;
        }
    }
    assert(text@.skip(n as int) =~= Seq::<char>::empty());
    assert(rest@ + Seq::<char>::empty() =~= rest@);
    rest
}

/// The value of a decimal digit, and nothing for any other character.
pub open spec fn digit_of(c: char) -> Option<nat> {
    if c == '0' {
        Some(0)
    } else if c == '1' {
        Some(1)
    } else if c == '2' {
        Some(2)
    } else if c == '3' {
        Some(3)
    } else if c == '4' {
        Some(4)
    } else if c == '5' {
        Some(5)
    } else if c == '6' {
        Some(6)
    } else if c == '7' {
        Some(7)
    } else if c == '8' {
        Some(8)
    } else if c == '9' {
        Some(9)
    } else {
        None
    }
}

/// Every character is a decimal digit.
pub open spec fn all_digits(text: Seq<char>) -> bool {
    forall|i: int| 0 <= i < text.len() ==> (#[trigger] digit_of(text[i])).is_some()
}

/// The number that a run of decimal digits writes.
pub open spec fn value_of(digits: Seq<char>) -> nat
    decreases digits.len(),
{
    if digits.len() == 0 {
        0
    } else {
        10 * value_of(digits.drop_last()) + match digit_of(digits.last()) {
            Some(d) => d,
            None => 0,
        }
    }
}

/// The digits of a number text: what follows a leading `+`, or the whole
/// text without one.
pub open spec fn unsigned_part(text: Seq<char>) -> Seq<char> {
    if text.len() > 0 && text[0] == '+' {
        text.skip(1)
    } else {
        text
    }
}

/// The index that `text` writes: one or more decimal digits, with or without
/// a `+` in front, whose value a `usize` can hold. Any other text writes no
/// index.
pub open spec fn parsed_index(text: Seq<char>) -> Option<usize> {
    let digits = unsigned_part(text);
    if digits.len() > 0 && all_digits(digits) && value_of(digits) <= usize::MAX {
        Some(value_of(digits) as usize)
    } else {
        None
    }
}

/// The value of a decimal digit, and nothing for any other character.
pub fn digit_value(c: char) -> (value: Option<usize>)
    ensures
        value.is_some() == digit_of(c).is_some(),
        value.is_some() ==> value.unwrap() == digit_of(c).unwrap(),
{
    if c == '0' {
        Some(0)
    } else if c == '1' {
        Some(1)
    } else if c == '2' {
        Some(2)
    } else if c == '3' {
        Some(3)
    } else if c == '4' {
        Some(4)
    } else if c == '5' {
        Some(5)
    } else if c == '6' {
        Some(6)
    } else if c == '7' {
        Some(7)
    } else if c == '8' {
        Some(8)
    } else if c == '9' {
        Some(9)
    } else {
        None
    }
}

/// The value of a run of digits is no smaller than that of any run it
/// begins with.
proof fn lemma_value_grows_with_digits(digits: Seq<char>, k: int)
    requires
        0 <= k <= digits.len(),
    ensures
        value_of(digits.take(k)) <= value_of(digits),
    decreases digits.len() - k,
{
    if k == digits.len() {
        assert(digits.take(k) =~= digits);
    } else {
        lemma_value_grows_with_digits(digits, k + 1);
        assert(digits.take(k + 1).drop_last() =~= digits.take(k));
    }
}

/// The index that `text` writes, if it writes one.
pub fn parse_index(text: &Vec<char>) -> (index: Option<usize>)
    ensures
        index == parsed_index(text@),
{
    let n = text.len();
    let start: usize = if n > 0 && text[0] == '+' {
        1
    } else {
        0
    };
    let ghost digits = unsigned_part(text@);
    assert(digits =~= text@.skip(start as int));
    if start == n {
        return None;
    }
    let mut value: usize = 0;
    let mut i: usize = start;
    assert(digits.take(0) =~= Seq::<char>::empty());
    while i < n
        invariant
            n == text@.len(),
            start <= i <= n,
            digits == text@.skip(start as int),
            digits == unsigned_part(text@),
            all_digits(digits.take(i - start)),
            value == value_of(digits.take(i - start)),
        decreases n - i,
    {
        let ghost seen = digits.take(i - start);
        let ghost next = digits.take(i - start + 1);
        assert(next.drop_last() =~= seen);
        assert(next.last() == text@[i as int]);
        let digit = match digit_value(text[i]) {
            Some(digit) => digit,
            None => {
                assert(digit_of(digits[i - start]).is_none());
                return None;
            },
        };
        let grown = match value.checked_mul(10) {
            Some(tenfold) => tenfold.checked_add(digit),
            None => None,
        };
        match grown {
            Some(sum) => {
                value = sum;
            },
            None => {
                assert(value_of(next) > usize::MAX);
                proof {
                    lemma_value_grows_with_digits(digits, i - start + 1);
                }
                return None;
            },
        }
        assert forall|k: int| 0 <= k < next.len() implies (#[trigger] digit_of(
            next[k],
        )).is_some() by {
            if k < seen.len() {
                assert(seen[k] == next[k]);
            }
        }
        i += 1;
    }
    assert(digits.take(n - start) =~= digits);
    Some(value)
}

/// The text of a decimal digit.
pub open spec fn digit_char(d: nat) -> char {
    if d == 0 {
        '0'
    } else if d == 1 {
        '1'
    } else if d == 2 {
        '2'
    } else if d == 3 {
        '3'
    } else if d == 4 {
        '4'
    } else if d == 5 {
        '5'
    } else if d == 6 {
        '6'
    } else if d == 7 {
        '7'
    } else if d == 8 {
        '8'
    } else {
        '9'
    }
}

/// A number written in decimal digits, without sign and without leading
/// zeros.
pub open spec fn decimal(n: nat) -> Seq<char>
    decreases n,
{
    if n < 10 {
        seq![digit_char(n)]
    } else {
        decimal(n / 10).push(digit_char(n % 10))
    }
}

/// The text of a decimal digit.
pub(crate) fn digit_text(d: usize) -> (text: &'static str)
    requires
        d < 10,
    ensures
        text@ == seq![digit_char(d as nat)],
{
    proof {
        reveal_strlit("0");
        reveal_strlit("1");
        reveal_strlit("2");
        reveal_strlit("3");
        reveal_strlit("4");
        reveal_strlit("5");
        reveal_strlit("6");
        reveal_strlit("7");
        reveal_strlit("8");
        reveal_strlit("9");
    }
    let text = if d == 0 {
        "0"
    } else if d == 1 {
        "1"
    } else if d == 2 {
        "2"
    } else if d == 3 {
        "3"
    } else if d == 4 {
        "4"
    } else if d == 5 {
        "5"
    } else if d == 6 {
        "6"
    } else if d == 7 {
        "7"
    } else if d == 8 {
        "8"
    } else {
        "9"
    };
    assert(text@ =~= seq![digit_char(d as nat)]);
    text
}

/// A number written in decimal digits.
pub fn decimal_text(n: usize) -> (text: String)
    ensures
        text@ == decimal(n as nat),
    decreases n,
{
    if n < 10 {
        String::from_str(digit_text(n))
    } else {
        let mut text = decimal_text(n / 10);
        text.append(digit_text(n % 10));
        assert(text@ =~= decimal(n as nat));
        text
    }
}

/// A number is read back from its decimal digits.
pub proof fn lemma_decimal_is_read_back(n: nat)
    ensures
        decimal(n).len() > 0,
        all_digits(decimal(n)),
        value_of(decimal(n)) == n,
        decimal(n)[0] != '+',
    decreases n,
{
    if n < 10 {
        assert(decimal(n).drop_last() =~= Seq::<char>::empty());
        assert(value_of(decimal(n).drop_last()) == 0);
    } else {
        lemma_decimal_is_read_back(n / 10);
        let earlier = decimal(n / 10);
        let all = decimal(n);
        assert(all.drop_last() =~= earlier);
        assert(all.last() == digit_char(n % 10));
        assert forall|i: int| 0 <= i < all.len() implies (#[trigger] digit_of(all[i])).is_some() by {
            if i < earlier.len() {
                assert(all[i] == earlier[i]);
            }
        }
        assert(all[0] == earlier[0]);
    }
}

/// An index is parsed back from its decimal text.
pub proof fn lemma_index_is_parsed_back(n: usize)
    ensures
        parsed_index(decimal(n as nat)) == Some(n),
{
    lemma_decimal_is_read_back(n as nat);
}

/// Taking a pattern out of a run of digits changes nothing when the pattern
/// begins with a character that is no digit.
pub proof fn lemma_digits_hold_no_pattern(digits: Seq<char>, pattern: Seq<char>)
    requires
        all_digits(digits),
        pattern.len() > 0,
        digit_of(pattern[0]).is_none(),
    ensures
        without(digits, pattern) == digits,
    decreases digits.len(),
{
    if digits.len() >= pattern.len() {
        assert(digit_of(digits[0]).is_some());
        assert(digits.subrange(0, pattern.len() as int)[0] == digits[0]);
        assert(!occurs_at(digits, pattern, 0));
        let later = digits.skip(1);
        assert forall|i: int| 0 <= i < later.len() implies (#[trigger] digit_of(
            later[i],
        )).is_some() by {
            assert(later[i] == digits[i + 1]);
        }
        lemma_digits_hold_no_pattern(later, pattern);
        assert(seq![digits[0]] + later =~= digits);
    }
}

/// A prefix that is no digit run is taken out of what it was put in front
/// of: from the prefix followed by a number, the number is left.
pub proof fn lemma_prefix_is_taken_off_a_number(prefix: Seq<char>, n: nat)
    requires
        prefix.len() > 0,
        digit_of(prefix[0]).is_none(),
    ensures
        has_prefix(prefix + decimal(n), prefix),
        without(prefix + decimal(n), prefix) == decimal(n),
{
    let whole = prefix + decimal(n);
    lemma_decimal_is_read_back(n);
    assert(whole.subrange(0, prefix.len() as int) =~= prefix);
    assert(whole.skip(prefix.len() as int) =~= decimal(n));
    lemma_digits_hold_no_pattern(decimal(n), prefix);
}

} // verus!
