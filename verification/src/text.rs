//! Text the library builds and compares.

use vstd::prelude::*;

use crate::tables::opt_text;

verus! {

/// The decimal digit `d`, for `d` below ten.
pub open spec fn digit(d: nat) -> char {
    if d == 0 {
        '0'
    } else if d == 1 {
        '1'
    } else if d == 2 {
        '2'
    } else if d == 3 {
        '3'
    } else if d == 4 {
        '4'
    } else if d == 5 {
        '5'
    } else if d == 6 {
        '6'
    } else if d == 7 {
        '7'
    } else if d == 8 {
        '8'
    } else {
        '9'
    }
}

/// The decimal numeral of `n`, without leading zeros.
pub open spec fn digits(n: nat) -> Seq<char>
    decreases n,
{
    if n < 10 {
        seq![digit(n)]
    } else {
        digits(n / 10).push(digit(n % 10))
    }
}

/// The decimal numeral of `i`, with a leading `-` for a negative number.
pub open spec fn decimal(i: int) -> Seq<char> {
    if i < 0 {
        seq!['-'] + digits((-i) as nat)
    } else {
        digits(i as nat)
    }
}

fn digit_text(d: u64) -> (text: &'static str)
    requires
        d < 10,
    ensures
        text@ == seq![digit(d as nat)],
{
    proof {
        reveal_strlit("0");
        reveal_strlit("1");
        reveal_strlit("2");
        reveal_strlit("3");
        reveal_strlit("4");
        reveal_strlit("5");
        reveal_strlit("6");
        reveal_strlit("7");
        reveal_strlit("8");
        reveal_strlit("9");
    }
    let text = if d == 0 {
        "0"
    } else if d == 1 {
        "1"
    } else if d == 2 {
        "2"
    } else if d == 3 {
        "3"
    } else if d == 4 {
        "4"
    } else if d == 5 {
        "5"
    } else if d == 6 {
        "6"
    } else if d == 7 {
        "7"
    } else if d == 8 {
        "8"
    } else {
        "9"
    };
    assert(text@ =~= seq![digit(d as nat)]);
    text
}

/// Writes `n` in decimal.
pub fn unsigned_text(n: u64) -> (text: String)
    ensures
        text@ == digits(n as nat),
    decreases n,
{
    if n < 10 {
        digit_text(n).to_owned()
    } else {
        let mut text = unsigned_text(n / 10);
        text.append(digit_text(n % 10));
        assert(text@ =~= digits((n / 10) as nat).push(digit((n % 10) as nat)));
        text
    }
}

/// Writes `i` in decimal.
pub fn signed_text(i: i64) -> (text: String)
    ensures
        text@ == decimal(i as int),
{
    if i < 0 {
        let magnitude: u64 = (0i128 - i as i128) as u64;
        let mut text = "-".to_owned();
        proof {
            reveal_strlit("-");
        }
        text.append(unsigned_text(magnitude).as_str());
        assert(text@ =~= seq!['-'] + digits(magnitude as nat));
        text
    } else {
        unsigned_text(i as u64)
    }
}

/// Whether two texts are the same.
pub fn same_text(left: &str, right: &str) -> (same: bool)
    ensures
        same == (left@ == right@),
{
    left.to_owned() == right.to_owned()
}

/// Whether two optional texts are the same.
pub fn same_optional_text(left: &Option<String>, right: &Option<String>) -> (same: bool)
    ensures
        same == (opt_text(*left) == opt_text(*right)),
{
    match (left, right) {
        (Some(left), Some(right)) => same_text(left.as_str(), right.as_str()),
        (None, None) => true,
        _ => false,
    }
}

/// `head` followed by `tail`.
pub fn join2(head: &str, tail: &str) -> (text: String)
    ensures
        text@ == head@ + tail@,
{
    let mut text = head.to_owned();
    text.append(tail);
    text
}

/// `head`, `middle` and `tail`, one after the other.
pub fn join3(head: &str, middle: &str, tail: &str) -> (text: String)
    ensures
        text@ == head@ + middle@ + tail@,
{
    let mut text = join2(head, middle);
    text.append(tail);
    text
}

/// `a`, `b`, `c` and `d`, one after the other.
pub fn join4(a: &str, b: &str, c: &str, d: &str) -> (text: String)
    ensures
        text@ == a@ + b@ + c@ + d@,
{
    let mut text = join3(a, b, c);
    text.append(d);
    text
}

/// `a`, `b`, `c`, `d` and `e`, one after the other.
pub fn join5(a: &str, b: &str, c: &str, d: &str, e: &str) -> (text: String)
    ensures
        text@ == a@ + b@ + c@ + d@ + e@,
{
    let mut text = join4(a, b, c, d);
    text.append(e);
    text
}

/// The texts of `parts` with `separator` between neighbours.
pub open spec fn separated(parts: Seq<String>, separator: Seq<char>) -> Seq<char>
    decreases parts.len(),
{
    if parts.len() == 0 {
        Seq::empty()
    } else if parts.len() == 1 {
        parts[0]@
    } else {
        separated(parts.drop_last(), separator) + separator + parts.last()@
    }
}

/// Writes `parts` with `separator` between neighbours.
pub fn separated_text(parts: &Vec<String>, separator: &str) -> (text: String)
    ensures
        text@ == separated(parts@, separator@),
{
    let mut text = String::new();
    let mut i: usize = 0;
    while i < parts.len()
        invariant
            i <= parts.len(),
            text@ == separated(parts@.take(i as int), separator@),
        decreases parts.len() - i,
    {
        let ghost shown = parts@.take(i as int);
        let ghost next = parts@.take(i + 1);
        assert(next.drop_last() =~= shown);
        if i > 0 {
            text.append(separator);
        }
        text.append(parts[i].as_str());
        proof {
            if i == 0 {
                assert(text@ =~= parts@[0]@);
            } else {
                assert(text@ =~= separated(shown, separator@) + separator@ + parts@[i as int]@);
            }
        }
        i = i + 1;
    }
    assert(parts@.take(i as int) =~= parts@);
    text
}

/// Whether `wanted` is one of `texts`.
pub fn contains_text(texts: &Vec<String>, wanted: &str) -> (found: bool)
    ensures
        found == text_list(texts@).contains(wanted@),
{
    let mut i: usize = 0;
    while i < texts.len()
        invariant
            i <= texts.len(),
            forall|j: int| 0 <= j < i ==> (#[trigger] texts@[j])@ != wanted@,
        decreases texts.len() - i,
    {
        if same_text(texts[i].as_str(), wanted) {
            assert(text_list(texts@)[i as int] == wanted@);
            return true;
        }
        i = i + 1;
    }
    assert forall|j: int| 0 <= j < text_list(texts@).len() implies text_list(texts@)[j] != wanted@ by {
        assert(texts@[j]@ != wanted@);
    }
    false
}

/// A character with the Unicode property White_Space.
pub open spec fn is_space(c: char) -> bool {
    ||| '\u{9}' <= c && c <= '\u{d}'
    ||| c == ' '
    ||| c == '\u{85}'
    ||| c == '\u{a0}'
    ||| c == '\u{1680}'
    ||| '\u{2000}' <= c && c <= '\u{200a}'
    ||| c == '\u{2028}'
    ||| c == '\u{2029}'
    ||| c == '\u{202f}'
    ||| c == '\u{205f}'
    ||| c == '\u{3000}'
}

fn space(c: char) -> (space: bool)
    ensures
        space == is_space(c),
{
    ('\u{9}' <= c && c <= '\u{d}') || c == ' ' || c == '\u{85}' || c == '\u{a0}' || c
        == '\u{1680}' || ('\u{2000}' <= c && c <= '\u{200a}') || c == '\u{2028}' || c
        == '\u{2029}' || c == '\u{202f}' || c == '\u{205f}' || c == '\u{3000}'
}

/// A text without anything but white space.
pub open spec fn is_blank(text: Seq<char>) -> bool {
    forall|i: int| 0 <= i < text.len() ==> is_space(#[trigger] text[i])
}

/// A text that holds something, and no white space around it.
pub open spec fn is_trimmed(text: Seq<char>) -> bool {
    &&& text.len() > 0
    &&& !is_space(text[0])
    &&& !is_space(text[text.len() - 1])
}

/// Whether a text holds nothing but white space.
pub fn blank(text: &str) -> (blank: bool)
    ensures
        blank == is_blank(text@),
{
    let n: usize = text.unicode_len();
    let mut i: usize = 0;
    while i < n
        invariant
            i <= n,
            n == text@.len(),
            forall|j: int| 0 <= j < i ==> is_space(#[trigger] text@[j]),
        decreases n - i,
    {
        if !space(text.get_char(i)) {
            return false;
        }
        i = i + 1;
    }
    true
}

/// Whether a text holds something, and no white space around it.
pub fn trimmed(text: &str) -> (trimmed: bool)
    ensures
        trimmed == is_trimmed(text@),
{
    let n: usize = text.unicode_len();
    n > 0 && !space(text.get_char(0)) && !space(text.get_char(n - 1))
}

/// Whether two lists hold the same texts, whatever their order.
pub open spec fn same_members(left: Seq<Seq<char>>, right: Seq<Seq<char>>) -> bool {
    forall|text: Seq<char>| #[trigger] left.contains(text) == right.contains(text)
}

fn all_within(texts: &Vec<String>, others: &Vec<String>) -> (within: bool)
    ensures
        within == forall|text: Seq<char>| #[trigger]
            text_list(texts@).contains(text) ==> text_list(others@).contains(text),
{
    let mut i: usize = 0;
    while i < texts.len()
        invariant
            i <= texts.len(),
            forall|j: int|
                0 <= j < i ==> text_list(others@).contains((#[trigger] texts@[j])@),
        decreases texts.len() - i,
    {
        if !contains_text(others, texts[i].as_str()) {
            assert(text_list(texts@)[i as int] == texts@[i as int]@);
            assert(text_list(texts@).contains(texts@[i as int]@));
            return false;
        }
        i = i + 1;
    }
    assert forall|text: Seq<char>| #[trigger] text_list(texts@).contains(text) implies text_list(
        others@,
    ).contains(text) by {
        let j = choose|j: int| 0 <= j < text_list(texts@).len() && text_list(texts@)[j] == text;
        assert(text_list(texts@)[j] == texts@[j]@);
    }
    true
}

/// Whether two lists hold the same texts, whatever their order.
pub fn same_texts(left: &Vec<String>, right: &Vec<String>) -> (same: bool)
    ensures
        same == same_members(text_list(left@), text_list(right@)),
{
    all_within(left, right) && all_within(right, left)
}

/// The texts of a list of strings.
pub open spec fn text_list(texts: Seq<String>) -> Seq<Seq<char>> {
    texts.map_values(|text: String| text@)
}

proof fn lemma_digits_shape(n: nat)
    ensures
        digits(n).len() > 0,
        digits(n).last() == digit(n % 10),
        n >= 10 ==> digits(n).len() >= 2 && digits(n).drop_last() == digits(n / 10),
        forall|i: int| 0 <= i < digits(n).len() ==> (#[trigger] digits(n)[i]) != '-',
    decreases n,
{
    if n >= 10 {
        lemma_digits_shape(n / 10);
        assert(digits(n).drop_last() =~= digits(n / 10));
    }
}

proof fn lemma_digit_injective(a: nat, b: nat)
    requires
        a < 10,
        b < 10,
        digit(a) == digit(b),
    ensures
        a == b,
{
}

proof fn lemma_digits_injective(a: nat, b: nat)
    requires
        digits(a) == digits(b),
    ensures
        a == b,
    decreases a,
{
    lemma_digits_shape(a);
    lemma_digits_shape(b);
    lemma_digit_injective(a % 10, b % 10);
    if a >= 10 && b >= 10 {
        lemma_digits_injective(a / 10, b / 10);
    }
}

/// Different numbers have different decimal numerals.
pub proof fn decimal_is_injective(a: int, b: int)
    requires
        decimal(a) == decimal(b),
    ensures
        a == b,
{
    lemma_digits_shape(if a < 0 { (-a) as nat } else { a as nat });
    lemma_digits_shape(if b < 0 { (-b) as nat } else { b as nat });
    assert(a < 0 ==> decimal(a)[0] == '-');
    assert(b < 0 ==> decimal(b)[0] == '-');
    assert(a >= 0 ==> decimal(a)[0] == digits(a as nat)[0]);
    assert(b >= 0 ==> decimal(b)[0] == digits(b as nat)[0]);
    if a < 0 && b < 0 {
        assert(decimal(a).subrange(1, decimal(a).len() as int) =~= digits((-a) as nat));
        assert(decimal(b).subrange(1, decimal(b).len() as int) =~= digits((-b) as nat));
        lemma_digits_injective((-a) as nat, (-b) as nat);
    } else if a >= 0 && b >= 0 {
        lemma_digits_injective(a as nat, b as nat);
    }
}

/// The number that a row of decimal digits stands for.
pub open spec fn numeral_value(text: Seq<char>) -> int
    decreases text.len(),
{
    if text.len() == 0 {
        0
    } else {
        numeral_value(text.drop_last()) * 10 + (text.last() as int - '0' as int)
    }
}

/// The decimal numeral of a number stands for that number, holds nothing but digits and has
/// no leading zero.
pub proof fn numerals_stand_for_their_number(n: nat)
    ensures
        numeral_value(digits(n)) == n,
        digits(n).len() > 0,
        forall|i: int|
            0 <= i < digits(n).len() ==> '0' as int <= #[trigger] digits(n)[i] as int <= '9' as int,
        n > 0 ==> digits(n)[0] != '0',
    decreases n,
{
    if n >= 10 {
        numerals_stand_for_their_number(n / 10);
        assert(digits(n).drop_last() =~= digits(n / 10));
        assert(numeral_value(digits(n)) == numeral_value(digits(n / 10)) * 10 + n % 10);
        assert(digits(n)[0] == digits(n / 10)[0]);
    } else {
        assert(digits(n).drop_last() =~= Seq::<char>::empty());
        assert(numeral_value(digits(n).drop_last()) == 0);
    }
}

/// A number that is not negative is written as its numeral, and a negative one as a minus
/// and the numeral of its size.
pub proof fn negative_numbers_have_a_minus(i: int)
    ensures
        i >= 0 ==> decimal(i) == digits(i as nat),
        i < 0 ==> decimal(i).len() > 1 && decimal(i)[0] == '-' && numeral_value(
            decimal(i).skip(1),
        ) == -i,
        i >= 0 ==> numeral_value(decimal(i)) == i,
{
    if i < 0 {
        numerals_stand_for_their_number((-i) as nat);
        assert(decimal(i).skip(1) =~= digits((-i) as nat));
    } else {
        numerals_stand_for_their_number(i as nat);
    }
}

/// No part is nothing, one part is that part, and two rows of parts are written one after
/// the other with one separator between them.
pub proof fn rows_are_joined_by_one_separator(
    left: Seq<String>,
    right: Seq<String>,
    separator: Seq<char>,
)
    ensures
        left.len() == 0 ==> separated(left, separator).len() == 0,
        left.len() == 1 ==> separated(left, separator) == left[0]@,
        left.len() > 0 && right.len() > 0 ==> separated(left + right, separator) == separated(
            left,
            separator,
        ) + separator + separated(right, separator),
    decreases right.len(),
{
    if left.len() > 0 && right.len() > 0 {
        let whole = left + right;
        assert(whole.drop_last() =~= left + right.drop_last());
        assert(whole.last() == right.last());
        if right.len() == 1 {
            assert(left + right.drop_last() =~= left);
        } else {
            rows_are_joined_by_one_separator(left, right.drop_last(), separator);
            assert(separated(whole, separator) =~= separated(left, separator) + separator
                + separated(right, separator));
        }
    }
}

/// Among the plain characters exactly the space and the five that end or indent lines are
/// white space.
pub proof fn plain_space_is_told_apart(c: char)
    requires
        (c as int) < 128,
    ensures
        is_space(c) <==> c == ' ' || 9 <= c as int <= 13,
{
}

/// A text that holds anything but white space is not blank, and one that is trimmed begins
/// and ends with such a thing: white space at either end spoils it.
pub proof fn trimmed_text_has_no_space_around_it(text: Seq<char>, c: char, i: int)
    ensures
        is_blank(Seq::<char>::empty()),
        is_blank(text) && is_space(c) ==> is_blank(text.push(c)),
        0 <= i < text.len() && !is_space(text[i]) ==> !is_blank(text),
        is_trimmed(text) ==> !is_blank(text),
        !is_trimmed(Seq::<char>::empty()),
        is_space(c) ==> !is_trimmed(text.push(c)),
        is_space(c) ==> !is_trimmed(seq![c] + text),
        !is_space(c) ==> is_trimmed(seq![c] + text.push(c)),
{
    if is_trimmed(text) {
        assert(!is_space(text[0]));
    }
    assert(text.push(c)[text.len() as int] == c);
    assert((seq![c] + text)[0] == c);
    let both = seq![c] + text.push(c);
    assert(both[0] == c);
    assert(both[both.len() - 1] == c);
}

/// Two lists that hold the same texts lack nothing of each other.
pub proof fn same_lists_lack_nothing(left: Seq<String>, right: Seq<String>, i: int)
    requires
        same_members(text_list(left), text_list(right)),
    ensures
        0 <= i < left.len() ==> exists|j: int|
            0 <= j < right.len() && (#[trigger] right[j])@ == left[i]@,
        0 <= i < right.len() ==> exists|j: int|
            0 <= j < left.len() && (#[trigger] left[j])@ == right[i]@,
{
    let a = text_list(left);
    let b = text_list(right);
    if 0 <= i < left.len() {
        assert(a[i] == left[i]@);
        assert(a.contains(left[i]@));
        let j = choose|j: int| 0 <= j < b.len() && b[j] == left[i]@;
        assert(right[j]@ == left[i]@);
    }
    if 0 <= i < right.len() {
        assert(b[i] == right[i]@);
        assert(b.contains(right[i]@));
        assert(a.contains(right[i]@));
        let j = choose|j: int| 0 <= j < a.len() && a[j] == right[i]@;
        assert(left[j]@ == right[i]@);
    }
}

/// Two lists that lack nothing of each other hold the same texts, in whatever order and
/// however often.
pub proof fn lists_that_lack_nothing_are_the_same(left: Seq<Seq<char>>, right: Seq<Seq<char>>)
    requires
        forall|i: int| 0 <= i < left.len() ==> right.contains(#[trigger] left[i]),
        forall|j: int| 0 <= j < right.len() ==> left.contains(#[trigger] right[j]),
    ensures
        same_members(left, right),
{
    assert forall|text: Seq<char>| #[trigger] left.contains(text) == right.contains(text) by {
        if left.contains(text) {
            let i = choose|i: int| 0 <= i < left.len() && left[i] == text;
            assert(right.contains(left[i]));
        }
        if right.contains(text) {
            let j = choose|j: int| 0 <= j < right.len() && right[j] == text;
            assert(left.contains(right[j]));
        }
    }
}

/// The texts of a list are those of its strings, in order.
pub proof fn texts_are_listed_in_order(texts: Seq<String>, i: int)
    ensures
        text_list(texts).len() == texts.len(),
        0 <= i < texts.len() ==> text_list(texts)[i] == texts[i]@,
{
}

} // verus!
