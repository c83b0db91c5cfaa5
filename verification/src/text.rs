//! Text helpers shared by the provider modules.
//!
//! Text is modelled as a sequence of characters. Everything here says what a
//! result is over that sequence.

use vstd::prelude::*;
use vstd::string::*;

verus! {

/// The decimal digit `d` as a character.
pub open spec fn digit_char(d: nat) -> char {
    (('0' as nat) + d) as char
}

/// `n` in decimal, without leading zeros.
pub open spec fn decimal_chars(n: nat) -> Seq<char>
    decreases n,
{
    if n < 10 {
        seq![digit_char(n)]
    } else {
        decimal_chars(n / 10).push(digit_char(n % 10))
    }
}

/// The lower-case hexadecimal digit `d` as a character.
pub open spec fn hex_char(d: nat) -> char {
    if d < 10 {
        digit_char(d)
    } else {
        (('a' as nat) + (d - 10)) as char
    }
}

/// `n` in lower-case hexadecimal, padded with zeros to at least `width` digits.
pub open spec fn hex_chars(n: nat, width: nat) -> Seq<char>
    decreases n, width,
{
    if n < 16 && width <= 1 {
        seq![hex_char(n)]
    } else {
        hex_chars(n / 16, if width > 0 { (width - 1) as nat } else { 0 }).push(hex_char(n % 16))
    }
}

fn digit_text(d: u64) -> (text: &'static str)
    requires
        d < 16,
    ensures
        text@ == seq![hex_char(d as nat)],
{
    proof {
        reveal_strlit("0");
        reveal_strlit("1");
        reveal_strlit("2");
        reveal_strlit("3");
        reveal_strlit("4");
        reveal_strlit("5");
        reveal_strlit("6");
        reveal_strlit("7");
        reveal_strlit("8");
        reveal_strlit("9");
        reveal_strlit("a");
        reveal_strlit("b");
        reveal_strlit("c");
        reveal_strlit("d");
        reveal_strlit("e");
        reveal_strlit("f");
    }
    match d {
        0 => "0",
        1 => "1",
        2 => "2",
        3 => "3",
        4 => "4",
        5 => "5",
        6 => "6",
        7 => "7",
        8 => "8",
        9 => "9",
        10 => "a",
        11 => "b",
        12 => "c",
        13 => "d",
        14 => "e",
        _ => "f",
    }
}

/// Write `n` in decimal.
pub fn decimal(n: u64) -> (text: String)
    ensures
        text@ == decimal_chars(n as nat),
    decreases n,
{
    if n < 10 {
        digit_text(n).to_string()
    } else {
        decimal(n / 10).concat(digit_text(n % 10))
    }
}

/// Write `n` in lower-case hexadecimal with at least `width` digits.
pub fn hex(n: u64, width: u64) -> (text: String)
    ensures
        text@ == hex_chars(n as nat, width as nat),
    decreases n, width,
{
    if n < 16 && width <= 1 {
        digit_text(n).to_string()
    } else {
        hex(n / 16, if width > 0 { width - 1 } else { 0 }).concat(digit_text(n % 16))
    }
}

/// Whether two texts are the same.
pub fn same_text(a: &str, b: &str) -> (same: bool)
    ensures
        same == (a@ == b@),
{
    a.to_string() == b.to_string()
}

/// The characters of a text.
pub fn chars_of(text: &str) -> (chars: Vec<char>)
    ensures
        chars@ == text@,
{
    let mut chars: Vec<char> = Vec::new();
    for c in iter: text.chars()
        invariant
            iter.seq() == text@,
            chars@ == text@.take(iter.index()),
    {
        chars.push(c);
    }
    chars
}

/// Whether `c` occurs in `text`.
pub fn contains_char(text: &str, c: char) -> (found: bool)
    ensures
        found == text@.contains(c),
{
    let chars = chars_of(text);
    let mut i: usize = 0;
    while i < chars.len()
        invariant
            i <= chars.len(),
            chars@ == text@,
            forall|j: int| 0 <= j < i ==> chars@[j] != c,
        decreases chars.len() - i,
    {
        if chars[i] == c {
            assert(text@[i as int] == c);
            return true;
        }
        i += 1;
    }
    false
}

/// `text` between quotation marks, with the characters that need it escaped,
/// as Rust's `{:?}` writes it. The escapes go by Unicode tables of the
/// standard library, so the outcome has a name here and no definition.
pub uninterp spec fn debug_chars(text: Seq<char>) -> Seq<char>;

/// Rust's `{:?}` of a text: `<str as std::fmt::Debug>::fmt` through
/// `std::format`. Claims only that the outcome depends on the text alone.
#[verifier::external_body]
pub(crate) fn quoted(text: &str) -> (shown: String)
    ensures
        shown@ == debug_chars(text@),
{
    format!("{:?}", text)
}

/// The ASCII lower-case form of a character; other characters are unchanged.
pub open spec fn ascii_lower(c: char) -> char {
    if 'A' <= c && c <= 'Z' {
        ((c as nat) + 32) as char
    } else {
        c
    }
}

/// Whether two texts are the same apart from the case of ASCII letters.
pub open spec fn same_ignoring_ascii_case(a: Seq<char>, b: Seq<char>) -> bool {
    &&& a.len() == b.len()
    &&& forall|i: int| 0 <= i < a.len() ==> ascii_lower(#[trigger] a[i]) == ascii_lower(b[i])
}

fn to_ascii_lower(c: char) -> (lower: char)
    ensures
        lower == ascii_lower(c),
{
    if 'A' <= c && c <= 'Z' {
        ((c as u8) + 32) as char
    } else {
        c
    }
}

/// Whether two texts are the same apart from the case of ASCII letters.
pub fn same_text_ignoring_ascii_case(a: &str, b: &str) -> (same: bool)
    ensures
        same == same_ignoring_ascii_case(a@, b@),
{
    let left = chars_of(a);
    let right = chars_of(b);
    if left.len() != right.len() {
        return false;
    }
    let mut i: usize = 0;
    while i < left.len()
        invariant
            i <= left.len(),
            left.len() == right.len(),
            left@ == a@,
            right@ == b@,
            forall|j: int|
                0 <= j < i ==> ascii_lower(#[trigger] left@[j]) == ascii_lower(right@[j]),
        decreases left.len() - i,
    {
        if to_ascii_lower(left[i]) != to_ascii_lower(right[i]) {
            assert(ascii_lower(a@[i as int]) != ascii_lower(b@[i as int]));
            return false;
        }
        i += 1;
    }
    true
}

/// Whether `c` is Unicode white space.
pub open spec fn is_white_space(c: char) -> bool {
    let code = c as u32;
    ||| 0x09 <= code <= 0x0d
    ||| code == 0x20
    ||| code == 0x85
    ||| code == 0xa0
    ||| code == 0x1680
    ||| 0x2000 <= code <= 0x200a
    ||| code == 0x2028
    ||| code == 0x2029
    ||| code == 0x202f
    ||| code == 0x205f
    ||| code == 0x3000
}

/// Whether `c` is Unicode white space.
pub fn white_space(c: char) -> (white: bool)
    ensures
        white == is_white_space(c),
{
    let code: u32 = c as u32;
    (0x09 <= code && code <= 0x0d) || code == 0x20 || code == 0x85 || code == 0xa0 || code == 0x1680
        || (0x2000 <= code && code <= 0x200a) || code == 0x2028 || code == 0x2029 || code == 0x202f
        || code == 0x205f || code == 0x3000
}

/// How many characters at the front of `s` are not white space.
pub open spec fn word_length(s: Seq<char>) -> nat
    decreases s.len(),
{
    if s.len() == 0 || is_white_space(s[0]) {
        0
    } else {
        1 + word_length(s.skip(1))
    }
}

/// The maximal runs of `s` that hold no white space, in order.
pub open spec fn words(s: Seq<char>) -> Seq<Seq<char>>
    decreases s.len(),
    via words_decreases
{
    if s.len() == 0 {
        seq![]
    } else if is_white_space(s[0]) {
        words(s.skip(1))
    } else {
        seq![s.take(word_length(s) as int)] + words(s.skip(word_length(s) as int))
    }
}

#[via_fn]
proof fn words_decreases(s: Seq<char>) {
    lemma_word_length(s);
}

/// A word is what its length says: no white space inside, and white space or
/// the end right after it.
proof fn lemma_word_length(s: Seq<char>)
    ensures
        word_length(s) <= s.len(),
        forall|i: int| 0 <= i < word_length(s) ==> !is_white_space(#[trigger] s[i]),
        word_length(s) < s.len() ==> is_white_space(s[word_length(s) as int]),
        s.len() > 0 && !is_white_space(s[0]) ==> word_length(s) > 0,
    decreases s.len(),
{
    if s.len() > 0 && !is_white_space(s[0]) {
        let rest = s.skip(1);
        lemma_word_length(rest);
        assert forall|i: int| 0 <= i < word_length(s) implies !is_white_space(#[trigger] s[i]) by {
            if i > 0 {
                assert(s[i] == rest[i - 1]);
            }
        }
    }
}

/// A stretch without white space that ends at white space or at the end has
/// the length of the word.
proof fn lemma_word_length_is(s: Seq<char>, n: nat)
    requires
        n <= s.len(),
        forall|i: int| 0 <= i < n ==> !is_white_space(#[trigger] s[i]),
        n < s.len() ==> is_white_space(s[n as int]),
    ensures
        word_length(s) == n,
    decreases n,
{
    if n > 0 {
        assert(!is_white_space(s[0]));
        let rest = s.skip(1);
        assert forall|i: int| 0 <= i < n - 1 implies !is_white_space(#[trigger] rest[i]) by {
            assert(rest[i] == s[i + 1]);
        }
        lemma_word_length_is(rest, (n - 1) as nat);
    }
}

/// The texts of a list.
pub open spec fn texts(list: Seq<String>) -> Seq<Seq<char>> {
    list.map_values(|text: String| text@)
}

/// Split `text` at white space.
pub fn split_words(text: &str) -> (found: Vec<String>)
    ensures
        texts(found@) == words(text@),
{
    let chars = chars_of(text);
    let mut found: Vec<String> = Vec::new();
    let mut at: usize = 0;
    assert(text@.skip(0) == text@);
    assert(texts(found@) + words(text@.skip(0)) == words(text@));
    while at < chars.len()
        invariant
            at <= chars.len(),
            chars@ == text@,
            texts(found@) + words(text@.skip(at as int)) == words(text@),
        decreases chars.len() - at,
    {
        let ghost rest = text@.skip(at as int);
        if white_space(chars[at]) {
            assert(rest.skip(1) == text@.skip(at + 1));
            at += 1;
        } else {
            let start: usize = at;
            while at < chars.len() && !white_space(chars[at])
                invariant
                    start <= at <= chars.len(),
                    chars@ == text@,
                    rest == text@.skip(start as int),
                    forall|i: int| start <= i < at ==> !is_white_space(#[trigger] chars@[i]),
                decreases chars.len() - at,
            {
                at += 1;
            }
            proof {
                let n = (at - start) as nat;
                assert forall|i: int| 0 <= i < n implies !is_white_space(#[trigger] rest[i]) by {
                    assert(rest[i] == chars@[start + i]);
                }
                lemma_word_length_is(rest, n);
                assert(n > 0);
                assert(rest.take(n as int) == text@.subrange(start as int, at as int));
                assert(rest.skip(n as int) == text@.skip(at as int));
            }
            let word = text.substring_char(start, at).to_string();
            let ghost before = texts(found@);
            found.push(word);
            assert(texts(found@) == before.push(word@));
            assert(before + (seq![word@] + words(text@.skip(at as int))) == texts(found@) + words(
                text@.skip(at as int),
            ));
        }
    }
    assert(text@.skip(at as int).len() == 0);
    assert(texts(found@) + words(text@.skip(at as int)) == texts(found@));
    found
}

/// `s` without leading and trailing white space.
pub open spec fn trimmed(s: Seq<char>) -> Seq<char>
    decreases s.len(),
{
    if s.len() == 0 {
        s
    } else if is_white_space(s[0]) {
        trimmed(s.skip(1))
    } else if is_white_space(s.last()) {
        trimmed(s.drop_last())
    } else {
        s
    }
}

/// `text` without leading and trailing white space.
#[verifier::spinoff_prover]
pub fn trim(text: &str) -> (inner: &str)
    ensures
        inner@ == trimmed(text@),
{
    let chars = chars_of(text);
    let mut from: usize = 0;
    let mut to: usize = chars.len();
    assert(text@.subrange(0, to as int) == text@);
    while from < to && white_space(chars[from])
        invariant
            from <= to == chars.len(),
            chars@ == text@,
            trimmed(text@.subrange(from as int, to as int)) == trimmed(text@),
        decreases to - from,
    {
        assert(text@.subrange(from as int, to as int).skip(1) == text@.subrange(from + 1, to as int));
        from += 1;
    }
    while from < to && white_space(chars[to - 1])
        invariant
            from <= to <= chars.len(),
            chars@ == text@,
            from < to ==> !is_white_space(chars@[from as int]),
            trimmed(text@.subrange(from as int, to as int)) == trimmed(text@),
        decreases to - from,
    {
        assert(text@.subrange(from as int, to as int).drop_last() == text@.subrange(
            from as int,
            to - 1,
        ));
        to -= 1;
    }
    text.substring_char(from, to)
}

/// `s` up to the first occurrence of `c`, or all of it.
pub open spec fn before(s: Seq<char>, c: char) -> Seq<char>
    decreases s.len(),
{
    if s.len() == 0 || s[0] == c {
        seq![]
    } else {
        seq![s[0]] + before(s.skip(1), c)
    }
}

/// The number that a text of decimal digits writes.
pub open spec fn digits_value(s: Seq<char>) -> nat
    decreases s.len(),
{
    if s.len() == 0 {
        0
    } else {
        digits_value(s.drop_last()) * 10 + ((s.last() as nat) - ('0' as nat)) as nat
    }
}

/// Whether `c` is an ASCII decimal digit.
pub open spec fn is_digit(c: char) -> bool {
    '0' <= c && c <= '9'
}

/// Whether every character of `s` is a decimal digit.
pub open spec fn all_digits(s: Seq<char>) -> bool {
    forall|i: int| 0 <= i < s.len() ==> is_digit(#[trigger] s[i])
}

/// `s` without one plus sign at the front, if there is one.
pub open spec fn without_plus(s: Seq<char>) -> Seq<char> {
    if s.len() > 0 && s[0] == '+' {
        s.skip(1)
    } else {
        s
    }
}

/// The `u32` that `s` writes in decimal: one or more digits, with at most one
/// plus sign in front.
pub open spec fn parsed_u32(s: Seq<char>) -> Option<u32> {
    let body = without_plus(s);
    if body.len() > 0 && all_digits(body) && digits_value(body) <= u32::MAX {
        Some(digits_value(body) as u32)
    } else {
        None
    }
}

/// More digits write a number at least as large.
proof fn lemma_digits_value_grows(s: Seq<char>, n: int)
    requires
        0 <= n <= s.len(),
        all_digits(s),
    ensures
        digits_value(s.take(n)) <= digits_value(s),
    decreases s.len() - n,
{
    if n < s.len() {
        lemma_digits_value_grows(s, n + 1);
        let longer = s.take(n + 1);
        assert(longer.drop_last() == s.take(n));
        assert(digits_value(longer) >= digits_value(s.take(n)) * 10);
    } else {
        assert(s.take(n) == s);
    }
}

/// Read a `u32` in decimal.
pub fn parse_u32(text: &str) -> (number: Option<u32>)
    ensures
        number == parsed_u32(text@),
{
    let chars = chars_of(text);
    let first: usize = if chars.len() > 0 && chars[0] == '+' {
        1
    } else {
        0
    };
    let ghost body = without_plus(text@);
    assert(body == text@.skip(first as int));
    if chars.len() == first {
        return None;
    }
    let mut value: u64 = 0;
    let mut i: usize = first;
    while i < chars.len()
        invariant
            first <= i <= chars.len(),
            chars@ == text@,
            body == text@.skip(first as int),
            body == without_plus(text@),
            forall|j: int| 0 <= j < i - first ==> is_digit(#[trigger] body[j]),
            value == digits_value(body.take(i - first)),
            value <= u32::MAX,
        decreases chars.len() - i,
    {
        let c = chars[i];
        let ghost n = (i - first) as int;
        assert(body[n] == c);
        if c < '0' || c > '9' {
            assert(!is_digit(body[n]));
            return None;
        }
        let d: u64 = (c as u64) - ('0' as u64);
        assert(body.take(n + 1).drop_last() == body.take(n));
        value = value * 10 + d;
        if value > 0xffff_ffff {
            proof {
                if parsed_u32(text@) is Some {
                    lemma_digits_value_grows(body, n + 1);
                }
            }
            return None;
        }
        i += 1;
    }
    assert(body.take(body.len() as int) == body);
    Some(value as u32)
}

/// `text` up to the first occurrence of `c`, or all of it.
pub fn up_to(text: &str, c: char) -> (front: &str)
    ensures
        front@ == before(text@, c),
{
    let chars = chars_of(text);
    let mut at: usize = 0;
    assert(text@.skip(0) == text@);
    while at < chars.len() && chars[at] != c
        invariant
            at <= chars.len(),
            chars@ == text@,
            before(text@, c) == text@.take(at as int) + before(text@.skip(at as int), c),
        decreases chars.len() - at,
    {
        assert(text@.skip(at as int).skip(1) == text@.skip(at + 1));
        assert(text@.take(at as int) + (seq![text@[at as int]] + before(text@.skip(at + 1), c))
            == text@.take(at + 1) + before(text@.skip(at + 1), c));
        at += 1;
    }
    assert(before(text@.skip(at as int), c) == Seq::<char>::empty());
    text.substring_char(0, at)
}

/// `n` in decimal, with a minus sign in front if it is negative.
pub open spec fn signed_decimal_chars(n: int) -> Seq<char> {
    if n < 0 {
        "-"@ + decimal_chars((-n) as nat)
    } else {
        decimal_chars(n as nat)
    }
}

/// Write `n` in decimal, with a minus sign in front if it is negative.
pub fn signed_decimal(n: i32) -> (text: String)
    ensures
        text@ == signed_decimal_chars(n as int),
{
    if n < 0 {
        "-".to_string().concat(decimal((-(n as i64)) as u64).as_str())
    } else {
        decimal(n as u64)
    }
}

/// `s` after `prefix`, if it begins with it.
pub open spec fn after_prefix(s: Seq<char>, prefix: Seq<char>) -> Option<Seq<char>> {
    if prefix.len() <= s.len() && s.take(prefix.len() as int) == prefix {
        Some(s.skip(prefix.len() as int))
    } else {
        None
    }
}

/// `text` after `prefix`, if it begins with it.
pub fn strip_prefix<'a>(text: &'a str, prefix: &str) -> (rest: Option<&'a str>)
    ensures
        rest is Some == after_prefix(text@, prefix@) is Some,
        rest matches Some(found) ==> Some(found@) == after_prefix(text@, prefix@),
{
    let length: usize = text.unicode_len();
    let front: usize = prefix.unicode_len();
    if front > length || !same_text(text.substring_char(0, front), prefix) {
        assert(front <= length ==> text@.subrange(0, front as int) == text@.take(front as int));
        return None;
    }
    assert(text@.subrange(0, front as int) == text@.take(front as int));
    assert(text@.subrange(front as int, length as int) == text@.skip(front as int));
    Some(text.substring_char(front, length))
}

/// `s` from the first occurrence of `c` on, if there is one.
pub open spec fn from_first(s: Seq<char>, c: char) -> Option<Seq<char>>
    decreases s.len(),
{
    if s.len() == 0 {
        None
    } else if s[0] == c {
        Some(s)
    } else {
        from_first(s.skip(1), c)
    }
}

/// `text` from the first occurrence of `c` on, if there is one.
pub fn starting_at<'a>(text: &'a str, c: char) -> (tail: Option<&'a str>)
    ensures
        tail is Some == from_first(text@, c) is Some,
        tail matches Some(found) ==> Some(found@) == from_first(text@, c),
{
    let chars = chars_of(text);
    let mut at: usize = 0;
    assert(text@.skip(0) == text@);
    while at < chars.len() && chars[at] != c
        invariant
            at <= chars.len(),
            chars@ == text@,
            from_first(text@, c) == from_first(text@.skip(at as int), c),
        decreases chars.len() - at,
    {
        assert(text@.skip(at as int).skip(1) == text@.skip(at + 1));
        at += 1;
    }
    if at == chars.len() {
        return None;
    }
    assert(text@.subrange(at as int, text@.len() as int) == text@.skip(at as int));
    Some(text.substring_char(at, chars.len()))
}

/// The stretches of `s` between the occurrences of `c`, in order: one more
/// than there are occurrences.
pub open spec fn split_at_char(s: Seq<char>, c: char) -> Seq<Seq<char>>
    decreases s.len(),
{
    if s.len() == 0 {
        seq![seq![]]
    } else {
        let earlier = split_at_char(s.drop_last(), c);
        if s.last() == c {
            earlier.push(seq![])
        } else {
            earlier.drop_last().push(earlier.last().push(s.last()))
        }
    }
}

/// The texts of a list, each without leading and trailing white space.
pub open spec fn all_trimmed(list: Seq<Seq<char>>) -> Seq<Seq<char>> {
    list.map_values(|text: Seq<char>| trimmed(text))
}

proof fn lemma_split_is_never_empty(s: Seq<char>, c: char)
    ensures
        split_at_char(s, c).len() > 0,
    decreases s.len(),
{
    if s.len() > 0 {
        lemma_split_is_never_empty(s.drop_last(), c);
    }
}

/// Split `text` at every `c` and trim the parts.
pub fn split_and_trim(text: &str, c: char) -> (parts: Vec<String>)
    ensures
        texts(parts@) == all_trimmed(split_at_char(text@, c)),
{
    let chars = chars_of(text);
    let mut parts: Vec<String> = Vec::new();
    let mut start: usize = 0;
    let mut at: usize = 0;
    assert(text@.take(0) == Seq::<char>::empty());
    assert(text@.subrange(0, 0) == Seq::<char>::empty());
    assert(split_at_char(text@.take(0), c).drop_last() == Seq::<Seq<char>>::empty());
    assert(texts(parts@) == all_trimmed(split_at_char(text@.take(0), c).drop_last()));
    while at < chars.len()
        invariant
            start <= at <= chars.len(),
            chars@ == text@,
            split_at_char(text@.take(at as int), c).len() > 0,
            split_at_char(text@.take(at as int), c).last() == text@.subrange(
                start as int,
                at as int,
            ),
            texts(parts@) == all_trimmed(split_at_char(text@.take(at as int), c).drop_last()),
        decreases chars.len() - at,
    {
        let ghost here = text@.take(at as int);
        let ghost next = text@.take(at + 1);
        let ghost earlier = split_at_char(here, c);
        assert(next.drop_last() == here);
        if chars[at] == c {
            let part = trim(text.substring_char(start, at)).to_string();
            let ghost before = texts(parts@);
            parts.push(part);
            proof {
                assert(texts(parts@) == before.push(part@));
                assert(split_at_char(next, c) == earlier.push(seq![]));
                assert(split_at_char(next, c).drop_last() == earlier);
                assert(earlier == earlier.drop_last().push(earlier.last()));
                assert(all_trimmed(earlier) == all_trimmed(earlier.drop_last()).push(
                    trimmed(earlier.last()),
                ));
                assert(text@.subrange(at + 1, at + 1) == Seq::<char>::empty());
            }
            start = at + 1;
        } else {
            proof {
                let grown = earlier.drop_last().push(earlier.last().push(text@[at as int]));
                assert(split_at_char(next, c) == grown);
                assert(grown.drop_last() == earlier.drop_last());
                assert(text@.subrange(start as int, at + 1) == text@.subrange(
                    start as int,
                    at as int,
                ).push(text@[at as int]));
            }
        }
        at += 1;
    }
    let part = trim(text.substring_char(start, at)).to_string();
    let ghost before = texts(parts@);
    parts.push(part);
    proof {
        let all = split_at_char(text@, c);
        assert(text@.take(at as int) == text@);
        assert(texts(parts@) == before.push(part@));
        assert(all == all.drop_last().push(all.last()));
        assert(all_trimmed(all) == all_trimmed(all.drop_last()).push(trimmed(all.last())));
    }
    parts
}

/// Splitting a text never gives nothing: a text without the separator is its
/// own single part.
pub proof fn law_split_has_a_part(s: Seq<char>, c: char)
    ensures
        split_at_char(s, c).len() > 0,
        !s.contains(c) ==> split_at_char(s, c) == seq![s],
    decreases s.len(),
{
    lemma_split_is_never_empty(s, c);
    if s.len() > 0 {
        let earlier = s.drop_last();
        law_split_has_a_part(earlier, c);
        if !s.contains(c) {
            assert(s.last() == s[s.len() - 1]);
            if earlier.contains(c) {
                let i = choose|i: int| 0 <= i < earlier.len() && earlier[i] == c;
                assert(s[i] == c);
            }
            assert(s == earlier.push(s.last()));
            assert(split_at_char(s, c) == seq![s]);
        }
    } else {
        assert(s == Seq::<char>::empty());
    }
}

/// A number written in decimal reads back as itself.
pub proof fn law_decimal_reads_back(n: u32)
    ensures
        parsed_u32(decimal_chars(n as nat)) == Some(n),
{
    lemma_decimal_digits(n as nat);
    let s = decimal_chars(n as nat);
    assert(is_digit(s[0]));
}

proof fn lemma_decimal_digits(n: nat)
    ensures
        decimal_chars(n).len() > 0,
        all_digits(decimal_chars(n)),
        digits_value(decimal_chars(n)) == n,
    decreases n,
{
    let s = decimal_chars(n);
    if n >= 10 {
        lemma_decimal_digits(n / 10);
        assert(s.drop_last() == decimal_chars(n / 10));
    } else {
        assert(s.drop_last().len() == 0);
        assert(digits_value(s.drop_last()) == 0);
    }
}

/// `base` to the power `exponent`.
pub open spec fn power(base: nat, exponent: nat) -> nat
    decreases exponent,
{
    if exponent == 0 {
        1
    } else {
        base * power(base, (exponent - 1) as nat)
    }
}

/// Dividing by one factor and then by a power is dividing by the next power.
proof fn lemma_power_step(n: nat, base: nat, exponent: nat)
    requires
        base > 0,
    ensures
        power(base, exponent) > 0,
        n / base / power(base, exponent) == n / power(base, exponent + 1),
    decreases exponent,
{
    if exponent > 0 {
        lemma_power_step(n, base, (exponent - 1) as nat);
    }
    let p = power(base, exponent);
    assert(p > 0) by {
        if exponent > 0 {
            let q = power(base, (exponent - 1) as nat);
            assert(base * q > 0) by (nonlinear_arith)
                requires
                    base > 0,
                    q > 0,
            ;
        }
    }
    assert(power(base, exponent + 1) == base * p);
    vstd::arithmetic::div_mod::lemma_div_denominator(n as int, base as int, p as int);
}

/// A number in decimal is its digits: the digit at distance `i` from the end
/// counts the `i`-th power of ten, and no zero stands in front.
#[verifier::spinoff_prover]
pub proof fn law_decimal_writes_the_number(n: nat, i: nat)
    ensures
        ({
            let s = decimal_chars(n);
            &&& s.len() >= 1
            &&& i < s.len() ==> s[s.len() - 1 - i] as nat == 48 + (n / power(10, i)) % 10
            &&& n >= 10 ==> s[0] != '0'
            &&& n < 10 ==> s.len() == 1
            &&& i >= s.len() ==> n / power(10, i) == 0
        }),
    decreases n,
{
    let s = decimal_chars(n);
    if n >= 10 {
        law_decimal_writes_the_number(n / 10, if i > 0 { (i - 1) as nat } else { 0 });
        law_decimal_writes_the_number(n / 10, 0);
        let front = decimal_chars(n / 10);
        assert(s[0] == front[0]);
        if n / 10 < 10 {
            law_decimal_writes_the_number(n / 10, 0);
            assert(front[0] as nat == 48 + (n / 10 / power(10, 0)) % 10);
            assert(power(10, 0) == 1);
            assert(front[0] as nat == 48 + n / 10);
        }
        assert(s == front.push(digit_char(n % 10)));
        if i > 0 {
            let before = (i - 1) as nat;
            lemma_power_step(n, 10, before);
            assert(before + 1 == i);
            assert(n / 10 / power(10, before) == n / power(10, i));
            if i < s.len() {
                assert(s[s.len() - 1 - i] == front[front.len() - 1 - before]);
            }
        } else {
            assert(power(10, 0) == 1);
            assert(n / 1 == n);
            assert(s[s.len() - 1] == digit_char(n % 10));
        }
    } else {
        assert(power(10, 0) == 1);
        assert(n / 1 == n);
        assert(s == seq![digit_char(n)]);
        if i > 0 {
            lemma_power_step(n, 10, (i - 1) as nat);
            assert(n / 10 == 0);
            let p = power(10, (i - 1) as nat);
            assert(0nat / p == 0) by (nonlinear_arith)
                requires
                    p > 0,
            ;
        }
    }
}

/// A number in hexadecimal is its digits, lower-case, with at least the digits
/// asked for.
pub proof fn law_hex_writes_the_number(n: nat, width: nat)
    ensures
        ({
            let s = hex_chars(n, width);
            &&& s.len() >= 1
            &&& s.len() >= width
            &&& forall|i: nat|
                #![trigger power(16, i)]
                i < s.len() ==> {
                    let digit = (n / power(16, i)) % 16;
                    let c = s[s.len() - 1 - i] as nat;
                    &&& digit < 10 ==> c == 48 + digit
                    &&& digit >= 10 ==> c == 87 + digit
                }
        }),
    decreases n, width,
{
    let s = hex_chars(n, width);
    assert(power(16, 0) == 1);
    if !(n < 16 && width <= 1) {
        let less = if width > 0 { (width - 1) as nat } else { 0 };
        law_hex_writes_the_number(n / 16, less);
        let front = hex_chars(n / 16, less);
        assert forall|i: nat| #![trigger power(16, i)] i < s.len() implies {
            let digit = (n / power(16, i)) % 16;
            let c = s[s.len() - 1 - i] as nat;
            &&& digit < 10 ==> c == 48 + digit
            &&& digit >= 10 ==> c == 87 + digit
        } by {
            if i > 0 {
                let before = (i - 1) as nat;
                lemma_power_step(n, 16, before);
                assert(power(16, before) > 0);
                assert(s[s.len() - 1 - i] == front[front.len() - 1 - before]);
            }
        }
    }
}

/// Reading a number goes digit by digit: one digit is its value, and one more
/// digit counts ten times what stood before it, as long as the number fits.
/// Anything that is no digit, a second sign among them, is no number.
pub proof fn law_numbers_are_read_digit_by_digit(s: Seq<char>, c: char)
    requires
        s.len() == 0 || s[0] != '+',
    ensures
        s.len() == 0 ==> parsed_u32(s) is None,
        s.len() == 0 && '0' <= c && c <= '9' ==> (parsed_u32(seq![c]) matches Some(n) && n
            == c as nat - 48),
        s.len() > 0 && '0' <= c && c <= '9' ==> (match parsed_u32(s) {
            Some(n) => if n * 10 + (c as nat - 48) <= 4_294_967_295 {
                parsed_u32(s.push(c)) matches Some(longer) && longer == n * 10 + (c as nat - 48)
            } else {
                parsed_u32(s.push(c)) is None
            },
            None => parsed_u32(s.push(c)) is None,
        }),
        s.len() > 0 && !('0' <= c && c <= '9') ==> parsed_u32(s.push(c)) is None,
        s.len() > 0 ==> parsed_u32(seq!['+'] + s) == parsed_u32(s),
{
    let longer = s.push(c);
    assert(longer.drop_last() =~= s);
    assert(longer.last() == c);
    assert((seq!['+'] + s).skip(1) =~= s);
    if s.len() == 0 {
        let one = seq![c];
        assert(one =~= longer);
        assert(one.drop_last().len() == 0);
        assert(digits_value(one.drop_last()) == 0);
        assert(one[0] == c);
        if '0' <= c && c <= '9' {
            assert(all_digits(one));
            assert(digits_value(one) == c as nat - 48);
        }
    } else {
        assert(longer[0] == s[0]);
        assert(without_plus(longer) == longer);
        assert(without_plus(s) == s);
        assert(longer[s.len() as int] == c);
        if all_digits(longer) {
            assert forall|i: int| 0 <= i < s.len() implies is_digit(#[trigger] s[i]) by {
                assert(longer[i] == s[i]);
            }
        }
        if all_digits(s) && is_digit(c) {
            assert forall|i: int| 0 <= i < longer.len() implies is_digit(#[trigger] longer[i]) by {
                if i < s.len() {
                    assert(longer[i] == s[i]);
                }
            }
        }
    }
}

/// Two characters are the same but for case exactly when they are the same, or
/// are the two forms of one ASCII letter; two texts are when each of their
/// characters is.
pub proof fn law_only_ascii_letters_have_case(a: char, b: char, s: Seq<char>, t: Seq<char>)
    ensures
        ascii_lower(a) == ascii_lower(b) <==> a == b || ('A' <= a && a <= 'Z' && b as nat
            == a as nat + 32) || ('A' <= b && b <= 'Z' && a as nat == b as nat + 32),
        same_ignoring_ascii_case(s, t) <==> s.len() == t.len() && forall|i: int|
            0 <= i < s.len() ==> ascii_lower(#[trigger] s[i]) == ascii_lower(t[i]),
        same_ignoring_ascii_case(s, s),
        same_ignoring_ascii_case(s, t) ==> same_ignoring_ascii_case(t, s),
{
    if same_ignoring_ascii_case(s, t) {
        assert forall|i: int| 0 <= i < t.len() implies ascii_lower(#[trigger] t[i]) == ascii_lower(
            s[i],
        ) by {
            assert(ascii_lower(s[i]) == ascii_lower(t[i]));
        }
    }
}

/// White space is what Unicode says it is.
pub proof fn law_white_space_is_that_of_unicode(c: char)
    ensures
        is_white_space(c) <==> seq![
            0x09u32, 0x0a, 0x0b, 0x0c, 0x0d, 0x20, 0x85, 0xa0, 0x1680, 0x2000, 0x2001, 0x2002,
            0x2003, 0x2004, 0x2005, 0x2006, 0x2007, 0x2008, 0x2009, 0x200a, 0x2028, 0x2029,
            0x202f, 0x205f, 0x3000,
        ].contains(c as u32),
{
    let all = seq![
        0x09u32, 0x0a, 0x0b, 0x0c, 0x0d, 0x20, 0x85, 0xa0, 0x1680, 0x2000, 0x2001, 0x2002, 0x2003,
        0x2004, 0x2005, 0x2006, 0x2007, 0x2008, 0x2009, 0x200a, 0x2028, 0x2029, 0x202f, 0x205f,
        0x3000,
    ];
    assert(all.len() == 25);
    assert(all[0] == 0x09 && all[1] == 0x0a && all[2] == 0x0b && all[3] == 0x0c && all[4] == 0x0d);
    assert(all[5] == 0x20 && all[6] == 0x85 && all[7] == 0xa0 && all[8] == 0x1680);
    assert(all[9] == 0x2000 && all[10] == 0x2001 && all[11] == 0x2002 && all[12] == 0x2003);
    assert(all[13] == 0x2004 && all[14] == 0x2005 && all[15] == 0x2006 && all[16] == 0x2007);
    assert(all[17] == 0x2008 && all[18] == 0x2009 && all[19] == 0x200a && all[20] == 0x2028);
    assert(all[21] == 0x2029 && all[22] == 0x202f && all[23] == 0x205f && all[24] == 0x3000);
}

/// What is split at white space: a text without any is its own single word, and
/// white space between two texts separates their words and adds none.
pub proof fn law_words_are_what_white_space_separates(a: Seq<char>, c: char, b: Seq<char>)
    requires
        is_white_space(c),
    ensures
        words(seq![]) == Seq::<Seq<char>>::empty(),
        a.len() > 0 && (forall|i: int| 0 <= i < a.len() ==> !is_white_space(#[trigger] a[i]))
            ==> words(a) == seq![a],
        words(a + seq![c] + b) == words(a) + words(b),
    decreases a.len(),
{
    let whole = a + seq![c] + b;
    assert(words(seq![]) =~= Seq::<Seq<char>>::empty());
    if a.len() > 0 && (forall|i: int| 0 <= i < a.len() ==> !is_white_space(#[trigger] a[i])) {
        lemma_word_length_is(a, a.len());
        assert(a.take(a.len() as int) =~= a);
        assert(a.skip(a.len() as int) =~= seq![]);
        assert(words(a) =~= seq![a]);
    }
    if a.len() == 0 {
        assert(whole[0] == c);
        assert(whole.skip(1) =~= b);
        assert(words(whole) == words(b));
        assert(a =~= seq![]);
        assert(words(a) + words(b) =~= words(b));
    } else if is_white_space(a[0]) {
        law_words_are_what_white_space_separates(a.skip(1), c, b);
        assert(whole[0] == a[0]);
        assert(whole.skip(1) =~= a.skip(1) + seq![c] + b);
    } else {
        lemma_word_length(a);
        let n = word_length(a);
        assert forall|i: int| 0 <= i < n implies !is_white_space(#[trigger] whole[i]) by {
            assert(whole[i] == a[i]);
        }
        assert(whole[n as int] == (if n < a.len() {
            a[n as int]
        } else {
            c
        }));
        lemma_word_length_is(whole, n);
        assert(whole[0] == a[0]);
        assert(whole.take(n as int) =~= a.take(n as int));
        assert(whole.skip(n as int) =~= a.skip(n as int) + seq![c] + b);
        law_words_are_what_white_space_separates(a.skip(n as int), c, b);
        assert(seq![a.take(n as int)] + (words(a.skip(n as int)) + words(b)) =~= (seq![
            a.take(n as int),
        ] + words(a.skip(n as int))) + words(b));
    }
}

/// Trimming takes white space off both ends and nothing else: what is left
/// stands in the text between white space, and does not begin or end with it.
#[verifier::spinoff_prover]
pub proof fn law_trimming_takes_only_white_space(s: Seq<char>) -> (ends: (int, int))
    ensures
        0 <= ends.0 <= ends.1 <= s.len(),
        trimmed(s) == s.subrange(ends.0, ends.1),
        forall|i: int| 0 <= i < ends.0 ==> is_white_space(#[trigger] s[i]),
        forall|i: int| ends.1 <= i < s.len() ==> is_white_space(#[trigger] s[i]),
        trimmed(s).len() > 0 ==> !is_white_space(trimmed(s)[0]) && !is_white_space(
            trimmed(s).last(),
        ),
    decreases s.len(),
{
    if s.len() == 0 {
        assert(s.subrange(0, 0) =~= s);
        (0, 0)
    } else if is_white_space(s[0]) {
        let rest = s.skip(1);
        let ends = law_trimming_takes_only_white_space(rest);
        assert(s.subrange(ends.0 + 1, ends.1 + 1) =~= rest.subrange(ends.0, ends.1));
        assert forall|i: int| 0 <= i < ends.0 + 1 implies is_white_space(#[trigger] s[i]) by {
            if i > 0 {
                assert(s[i] == rest[i - 1]);
            }
        }
        assert forall|i: int| ends.1 + 1 <= i < s.len() implies is_white_space(#[trigger] s[i]) by {
            assert(s[i] == rest[i - 1]);
        }
        (ends.0 + 1, ends.1 + 1)
    } else if is_white_space(s.last()) {
        let rest = s.drop_last();
        let ends = law_trimming_takes_only_white_space(rest);
        assert(s.subrange(ends.0, ends.1) =~= rest.subrange(ends.0, ends.1));
        assert forall|i: int| 0 <= i < ends.0 implies is_white_space(#[trigger] s[i]) by {
            assert(s[i] == rest[i]);
        }
        assert forall|i: int| ends.1 <= i < s.len() implies is_white_space(#[trigger] s[i]) by {
            if i < rest.len() {
                assert(s[i] == rest[i]);
            }
        }
        ends
    } else {
        assert(s.subrange(0, s.len() as int) =~= s);
        (0, s.len() as int)
    }
}

/// A text falls into what stands before the first occurrence of a character
/// and what stands from it on.
pub proof fn law_first_occurrence_divides_a_text(s: Seq<char>, c: char)
    ensures
        !before(s, c).contains(c),
        from_first(s, c) is Some <==> s.contains(c),
        from_first(s, c) matches Some(tail) ==> tail.len() > 0 && tail[0] == c && s == before(s, c)
            + tail,
        from_first(s, c) is None ==> before(s, c) == s,
    decreases s.len(),
{
    if s.len() == 0 {
        assert(before(s, c) =~= s);
    } else if s[0] == c {
        assert(s =~= before(s, c) + s);
        assert(s.contains(s[0]));
    } else {
        let rest = s.skip(1);
        law_first_occurrence_divides_a_text(rest, c);
        let front = before(s, c);
        assert(s =~= seq![s[0]] + rest);
        if front.contains(c) {
            let i = choose|i: int| 0 <= i < front.len() && front[i] == c;
            assert(before(rest, c)[i - 1] == c);
        }
        if s.contains(c) {
            let i = choose|i: int| 0 <= i < s.len() && s[i] == c;
            assert(rest[i - 1] == c);
        }
        if rest.contains(c) {
            let i = choose|i: int| 0 <= i < rest.len() && rest[i] == c;
            assert(s[i + 1] == c);
        }
        if let Some(tail) = from_first(rest, c) {
            assert(s =~= front + tail);
        } else {
            assert(front =~= s);
        }
    }
}

/// A text begins with a prefix exactly when it is the prefix and a rest.
pub proof fn law_prefix_and_rest_make_the_text(s: Seq<char>, prefix: Seq<char>, rest: Seq<char>)
    ensures
        after_prefix(prefix + rest, prefix) == Some(rest),
        after_prefix(s, prefix) matches Some(found) ==> s == prefix + found,
{
    assert((prefix + rest).take(prefix.len() as int) =~= prefix);
    assert((prefix + rest).skip(prefix.len() as int) =~= rest);
    if let Some(found) = after_prefix(s, prefix) {
        assert(s =~= prefix + found);
    }
}

/// Splitting at a character divides a text exactly there: the parts of two
/// texts with the character between them are the parts of both.
pub proof fn law_split_divides_at_the_character(a: Seq<char>, c: char, b: Seq<char>)
    ensures
        split_at_char(a + seq![c] + b, c) == split_at_char(a, c) + split_at_char(b, c),
    decreases b.len(),
{
    let whole = a + seq![c] + b;
    if b.len() == 0 {
        assert(whole.drop_last() =~= a);
        assert(whole.last() == c);
        assert(split_at_char(b, c) =~= seq![seq![]]);
        assert(split_at_char(whole, c) =~= split_at_char(a, c) + split_at_char(b, c));
    } else {
        let shorter = b.drop_last();
        law_split_divides_at_the_character(a, c, shorter);
        lemma_split_is_never_empty(shorter, c);
        assert(whole.drop_last() =~= a + seq![c] + shorter);
        assert(whole.last() == b.last());
        let left = split_at_char(a, c);
        let right = split_at_char(shorter, c);
        assert((left + right).last() == right.last());
        assert((left + right).drop_last() =~= left + right.drop_last());
        assert(split_at_char(whole, c) =~= left + split_at_char(b, c));
    }
}

/// A negative number reads as a minus sign and its magnitude, any other as
/// itself.
pub proof fn law_sign_is_written(n: int)
    ensures
        n >= 0 ==> signed_decimal_chars(n) == decimal_chars(n as nat),
        n < 0 ==> signed_decimal_chars(n) == seq!['-'] + decimal_chars((-n) as nat),
{
    reveal_strlit("-");
    assert("-"@ =~= seq!['-']);
}

/// Lists are read text by text, and trimmed text by text.
pub proof fn law_lists_are_read_text_by_text(list: Seq<String>, parts: Seq<Seq<char>>, i: int)
    ensures
        texts(list).len() == list.len(),
        all_trimmed(parts).len() == parts.len(),
        0 <= i < list.len() ==> texts(list)[i] == list[i]@,
        0 <= i < parts.len() ==> all_trimmed(parts)[i] == trimmed(parts[i]),
{
}

/// Numbers that read the same in decimal are the same.
pub proof fn law_decimal_is_unambiguous(a: nat, b: nat)
    requires
        decimal_chars(a) == decimal_chars(b),
    ensures
        a == b,
{
    lemma_decimal_digits(a);
    lemma_decimal_digits(b);
}

/// What stands before the first occurrence of a character is what was put
/// there, and what stands from it on is the rest.
pub proof fn law_a_text_is_found_where_it_was_put(a: Seq<char>, c: char, b: Seq<char>)
    requires
        !a.contains(c),
    ensures
        before(a, c) == a,
        before(a + seq![c] + b, c) == a,
        from_first(a + seq![c] + b, c) == Some(seq![c] + b),
        from_first(a, c) is None,
    decreases a.len(),
{
    let whole = a + seq![c] + b;
    if a.len() == 0 {
        assert(whole[0] == c);
        assert(whole =~= seq![c] + b);
        assert(before(a, c) =~= a);
        assert(before(whole, c) =~= a);
    } else {
        let rest = a.skip(1);
        assert(a.contains(a[0]));
        if rest.contains(c) {
            let i = choose|i: int| 0 <= i < rest.len() && rest[i] == c;
            assert(a[i + 1] == c);
        }
        law_a_text_is_found_where_it_was_put(rest, c, b);
        assert(whole[0] == a[0]);
        assert(whole.skip(1) =~= rest + seq![c] + b);
        assert(seq![a[0]] + rest =~= a);
    }
}

/// Trimming finds a text again between whatever white space it was put.
pub proof fn law_trimming_leaves_the_core(lead: Seq<char>, core: Seq<char>, trail: Seq<char>)
    requires
        forall|i: int| 0 <= i < lead.len() ==> is_white_space(#[trigger] lead[i]),
        forall|i: int| 0 <= i < trail.len() ==> is_white_space(#[trigger] trail[i]),
        core.len() > 0 ==> !is_white_space(core[0]) && !is_white_space(core.last()),
    ensures
        trimmed(lead + core + trail) == core,
    decreases lead.len() + trail.len(),
{
    let whole = lead + core + trail;
    if lead.len() > 0 {
        assert(whole[0] == lead[0]);
        assert(whole.skip(1) =~= lead.skip(1) + core + trail);
        law_trimming_leaves_the_core(lead.skip(1), core, trail);
    } else if trail.len() > 0 {
        assert(whole.last() == trail.last());
        assert(trail.last() == trail[trail.len() - 1]);
        if core.len() > 0 {
            assert(whole[0] == core[0]);
            assert(whole.drop_last() =~= lead + core + trail.drop_last());
            law_trimming_leaves_the_core(lead, core, trail.drop_last());
        } else {
            assert(whole[0] == trail[0]);
            assert(whole.skip(1) =~= lead + core + trail.skip(1));
            law_trimming_leaves_the_core(lead, core, trail.skip(1));
        }
    } else {
        assert(whole =~= core);
    }
}

/// A number in decimal begins with a digit and holds nothing else.
pub proof fn law_decimal_holds_digits_only(n: nat)
    ensures
        decimal_chars(n).len() > 0,
        forall|i: int|
            0 <= i < decimal_chars(n).len() ==> '0' <= #[trigger] decimal_chars(n)[i]
                && decimal_chars(n)[i] <= '9',
{
    lemma_decimal_digits(n);
    assert forall|i: int| 0 <= i < decimal_chars(n).len() implies '0' <= #[trigger] decimal_chars(
        n,
    )[i] && decimal_chars(n)[i] <= '9' by {
        assert(is_digit(decimal_chars(n)[i]));
    }
}

} // verus!
