//! Character-level helpers for the strings the scheduler reads and writes.

use vstd::prelude::*;

verus! {

/// The characters of `s`, in order.
pub fn chars_of(s: &str) -> (chars: Vec<char>)
    ensures
        chars@ == s@,
{
    let mut chars: Vec<char> = Vec::new();
    for c in it: s.chars()
        invariant
            chars@ == it.seq().take(it.index() as int),
            it.seq() == s@,
    {
        chars.push(c);
    }
    chars
}

/// Appends one character to a string.
///
/// Wraps `String::push` of the standard library, which is documented to
/// append the given character to the end of the string.
#[verifier::external_body]
pub(crate) fn push_char(s: &mut String, c: char)
    ensures
        final(s)@ == old(s)@.push(c),
{
    s.push(c);
}

/// `c` with an ASCII capital letter replaced by its small letter.
pub open spec fn lower_char(c: char) -> char {
    if 'A' <= c && c <= 'Z' {
        ((c as u8) + 32) as char
    } else {
        c
    }
}

/// `s` with every ASCII capital letter replaced by its small letter.
pub open spec fn lower(s: Seq<char>) -> Seq<char> {
    Seq::new(s.len(), |i: int| lower_char(s[i]))
}

/// Lowers one character as `lower_char` says.
pub fn to_lower_char(c: char) -> (l: char)
    ensures
        l == lower_char(c),
{
    if 'A' <= c && c <= 'Z' {
        ((c as u8) + 32) as char
    } else {
        c
    }
}

/// Index of the first `c` in `s`, or the length of `s` where `s` holds no `c`.
pub open spec fn first_index_of(s: Seq<char>, c: char) -> int
    decreases s.len(),
{
    if s.len() == 0 {
        0
    } else if s[0] == c {
        0
    } else {
        1 + first_index_of(s.drop_first(), c)
    }
}

/// Index of the last `c` in `s`, or -1 where `s` holds no `c`.
pub open spec fn last_index_of(s: Seq<char>, c: char) -> int
    decreases s.len(),
{
    if s.len() == 0 {
        -1
    } else if s.last() == c {
        s.len() - 1
    } else {
        last_index_of(s.drop_last(), c)
    }
}

/// `s` holds no `c`.
pub open spec fn free_of(s: Seq<char>, c: char) -> bool {
    forall|i: int| 0 <= i < s.len() ==> s[i] != c
}

/// `first_index_of` is the one index that has a `c` and none before it.
pub proof fn lemma_first_index(s: Seq<char>, c: char, index: int)
    requires
        0 <= index <= s.len(),
        forall|j: int| 0 <= j < index ==> s[j] != c,
        index < s.len() ==> s[index] == c,
    ensures
        first_index_of(s, c) == index,
    decreases index,
{
    if index > 0 {
        lemma_first_index(s.drop_first(), c, index - 1);
    }
}

/// `first_index_of` lies within the sequence, at a `c`, past everything else.
pub proof fn lemma_first_index_bounds(s: Seq<char>, c: char)
    ensures
        0 <= first_index_of(s, c) <= s.len(),
        first_index_of(s, c) < s.len() ==> s[first_index_of(s, c)] == c,
        forall|j: int| 0 <= j < first_index_of(s, c) ==> s[j] != c,
    decreases s.len(),
{
    if s.len() > 0 && s[0] != c {
        let rest = s.drop_first();
        lemma_first_index_bounds(rest, c);
        assert forall|j: int| 0 <= j < first_index_of(s, c) implies s[j] != c by {
            if j > 0 {
                assert(rest[j - 1] == s[j]);
            }
        }
    }
}

/// `last_index_of` is the one index that has a `c` and none after it.
pub proof fn lemma_last_index(s: Seq<char>, c: char, index: int)
    requires
        -1 <= index < s.len(),
        forall|j: int| index < j < s.len() ==> s[j] != c,
        0 <= index ==> s[index] == c,
    ensures
        last_index_of(s, c) == index,
    decreases s.len(),
{
    if s.len() > 0 && index < s.len() - 1 {
        lemma_last_index(s.drop_last(), c, index);
    }
}

/// `last_index_of` lies within the sequence, at a `c`, before everything else.
pub proof fn lemma_last_index_bounds(s: Seq<char>, c: char)
    ensures
        -1 <= last_index_of(s, c) < s.len(),
        0 <= last_index_of(s, c) ==> s[last_index_of(s, c)] == c,
        forall|j: int| last_index_of(s, c) < j < s.len() ==> s[j] != c,
    decreases s.len(),
{
    if s.len() > 0 && s.last() != c {
        let front = s.drop_last();
        lemma_last_index_bounds(front, c);
        assert forall|j: int| last_index_of(s, c) < j < s.len() implies s[j] != c by {
            if j < front.len() {
                assert(front[j] == s[j]);
            }
        }
    }
}

/// Finds the first `c` in `chars[from..to]`; returns `to` where there is none.
pub(crate) fn find_first(chars: &Vec<char>, from: usize, to: usize, c: char) -> (index: usize)
    requires
        from <= to <= chars.len(),
    ensures
        index == from + first_index_of(chars@.subrange(from as int, to as int), c),
        from <= index <= to,
{
    let mut i: usize = from;
    while i < to && chars[i] != c
        invariant
            from <= i <= to <= chars.len(),
            forall|j: int| from <= j < i ==> chars@[j] != c,
        decreases to - i,
    {
        i += 1;
    }
    proof {
        lemma_first_index(chars@.subrange(from as int, to as int), c, i - from);
    }
    i
}

/// Finds the last `c` in `chars[from..to]`; returns `None` where there is none.
pub(crate) fn find_last(chars: &Vec<char>, from: usize, to: usize, c: char) -> (index: Option<
    usize,
>)
    requires
        from <= to <= chars.len(),
    ensures
        match index {
            Some(i) => i == from + last_index_of(chars@.subrange(from as int, to as int), c) && from
                <= i < to,
            None => last_index_of(chars@.subrange(from as int, to as int), c) == -1,
        },
{
    let mut i: usize = to;
    while i > from && chars[i - 1] != c
        invariant
            from <= i <= to <= chars.len(),
            forall|j: int| i <= j < to ==> chars@[j] != c,
        decreases i - from,
    {
        i -= 1;
    }
    proof {
        lemma_last_index(chars@.subrange(from as int, to as int), c, i - from - 1);
    }
    if i > from {
        Some(i - 1)
    } else {
        None
    }
}

/// The string made of `chars[from..to]`.
pub(crate) fn string_of_range(chars: &Vec<char>, from: usize, to: usize) -> (s: String)
    requires
        from <= to <= chars.len(),
    ensures
        s@ == chars@.subrange(from as int, to as int),
{
    let mut s = String::new();
    let mut i: usize = from;
    while i < to
        invariant
            from <= i <= to <= chars.len(),
            s@ == chars@.subrange(from as int, i as int),
        decreases to - i,
    {
        push_char(&mut s, chars[i]);
        i += 1;
    }
    s
}

/// The characters of `s`, each lowered as `lower_char` says.
pub fn lowered_chars(s: &str) -> (chars: Vec<char>)
    ensures
        chars@ == lower(s@),
{
    let source = chars_of(s);
    let mut chars: Vec<char> = Vec::new();
    let mut i: usize = 0;
    while i < source.len()
        invariant
            i <= source.len(),
            source@ == s@,
            chars@ == lower(s@).take(i as int),
        decreases source.len() - i,
    {
        chars.push(to_lower_char(source[i]));
        i += 1;
    }
    chars
}

/// Tells whether two sequences of characters are the same.
pub fn same_chars(a: &Vec<char>, b: &Vec<char>) -> (same: bool)
    ensures
        same == (a@ == b@),
{
    if a.len() != b.len() {
        return false;
    }
    let mut i: usize = 0;
    while i < a.len()
        invariant
            i <= a.len(),
            a.len() == b.len(),
            forall|j: int| 0 <= j < i ==> a@[j] == b@[j],
        decreases a.len() - i,
    {
        if a[i] != b[i] {
            return false;
        }
        i += 1;
    }
    assert(a@ =~= b@);
    true
}

/// Tells whether `chars` spell `word`.
pub fn spells(chars: &Vec<char>, word: &str) -> (same: bool)
    ensures
        same == (chars@ == word@),
{
    let letters = chars_of(word);
    same_chars(chars, &letters)
}

/// The character that writes the decimal digit `digit`.
pub open spec fn digit_char(digit: int) -> char {
    (48 + digit) as u8 as char
}

/// The character that writes the decimal digit `digit`.
pub(crate) fn digit_to_char(digit: u8) -> (c: char)
    requires
        digit < 10,
    ensures
        c == digit_char(digit as int),
{
    (48 + digit) as char
}

/// `number` written in decimal, without leading zeros.
pub open spec fn decimal_of(number: nat) -> Seq<char>
    decreases number,
{
    if number < 10 {
        seq![digit_char(number as int)]
    } else {
        decimal_of(number / 10).push(digit_char((number % 10) as int))
    }
}

/// Appends `number` in decimal.
pub fn push_decimal(text: &mut String, number: u32)
    ensures
        final(text)@ == old(text)@ + decimal_of(number as nat),
    decreases number,
{
    if number >= 10 {
        push_decimal(text, number / 10);
    }
    push_char(text, digit_to_char((number % 10) as u8));
}

/// `c` is white space: one of the characters that Unicode gives the property
/// `White_Space`.
pub open spec fn is_space(c: char) -> bool {
    let code = c as u32;
    ||| 0x09 <= code <= 0x0D
    ||| code == 0x20
    ||| code == 0x85
    ||| code == 0xA0
    ||| code == 0x1680
    ||| 0x2000 <= code <= 0x200A
    ||| code == 0x2028
    ||| code == 0x2029
    ||| code == 0x202F
    ||| code == 0x205F
    ||| code == 0x3000
}

/// Tells whether `c` is white space.
pub fn is_whitespace(c: char) -> (space: bool)
    ensures
        space == is_space(c),
{
    let code: u32 = c as u32;
    (0x09 <= code && code <= 0x0D) || code == 0x20 || code == 0x85 || code == 0xA0 || code
        == 0x1680 || (0x2000 <= code && code <= 0x200A) || code == 0x2028 || code == 0x2029
        || code == 0x202F || code == 0x205F || code == 0x3000
}

/// Number of white-space characters at the start of `s`.
pub open spec fn leading_spaces(s: Seq<char>) -> int
    decreases s.len(),
{
    if s.len() > 0 && is_space(s[0]) {
        1 + leading_spaces(s.drop_first())
    } else {
        0
    }
}

/// Length of `s` without the white space at its end.
pub open spec fn length_without_trailing_spaces(s: Seq<char>) -> int
    decreases s.len(),
{
    if s.len() > 0 && is_space(s.last()) {
        length_without_trailing_spaces(s.drop_last())
    } else {
        s.len() as int
    }
}

/// `s` without the white space at its start and at its end.
pub open spec fn trimmed(s: Seq<char>) -> Seq<char> {
    let rest = s.skip(leading_spaces(s));
    rest.take(length_without_trailing_spaces(rest))
}

/// `leading_spaces` is the index of the first character that is no white
/// space.
pub proof fn lemma_leading_spaces(s: Seq<char>, index: int)
    requires
        0 <= index <= s.len(),
        forall|j: int| 0 <= j < index ==> is_space(s[j]),
        index < s.len() ==> !is_space(s[index]),
    ensures
        leading_spaces(s) == index,
    decreases index,
{
    if index > 0 {
        lemma_leading_spaces(s.drop_first(), index - 1);
    }
}

/// `length_without_trailing_spaces` ends just after the last character that is
/// no white space.
pub proof fn lemma_trailing_spaces(s: Seq<char>, end: int)
    requires
        0 <= end <= s.len(),
        forall|j: int| end <= j < s.len() ==> is_space(s[j]),
        0 < end ==> !is_space(s[end - 1]),
    ensures
        length_without_trailing_spaces(s) == end,
    decreases s.len(),
{
    if end < s.len() {
        lemma_trailing_spaces(s.drop_last(), end);
    }
}

/// The range of `chars` that is left when the white space at both ends is cut
/// off.
pub fn trimmed_range(chars: &Vec<char>) -> (range: (usize, usize))
    ensures
        range.0 <= range.1 <= chars.len(),
        chars@.subrange(range.0 as int, range.1 as int) == trimmed(chars@),
{
    let mut start: usize = 0;
    while start < chars.len() && is_whitespace(chars[start])
        invariant
            start <= chars.len(),
            forall|j: int| 0 <= j < start ==> is_space(chars@[j]),
        decreases chars.len() - start,
    {
        start += 1;
    }
    let mut end: usize = chars.len();
    while end > start && is_whitespace(chars[end - 1])
        invariant
            start <= end <= chars.len(),
            forall|j: int| end <= j < chars.len() ==> is_space(chars@[j]),
        decreases end - start,
    {
        end -= 1;
    }
    proof {
        lemma_leading_spaces(chars@, start as int);
        lemma_trailing_spaces(chars@.skip(start as int), end - start);
    }
    (start, end)
}

} // verus!
