//! Text as sequences of characters: whitespace, trimming, searching for a
//! pattern, cutting at a pattern, and decimal numbers.

use vstd::prelude::*;
use vstd::string::{StrSliceExecFns, StringExecFns};

verus! {

/// The characters of `s` in a vector, in order.
pub fn chars_of(s: &str) -> (v: Vec<char>)
    ensures
        v@ == s@,
{
    let mut v: Vec<char> = Vec::new();
    for c in it: s.chars()
        invariant
            v@ == it.seq().take(it.index() as int),
            it.seq() == s@,
    {
        v.push(c);
    }
    v
}

/// `String::push`, which std documents to append the given character to
/// the end of the string. Assumed: it does that and nothing else.
pub assume_specification[ String::push ](text: &mut String, c: char)
    ensures
        final(text)@ == old(text)@.push(c),
;

/// The characters `from..to` of `text`, as a string of their own.
pub fn slice_text(text: &str, from: usize, to: usize) -> (r: String)
    requires
        from <= to <= text@.len(),
    ensures
        r@ == text@.subrange(from as int, to as int),
{
    String::from_str(text.substring_char(from, to))
}

/// True for the characters that Unicode gives the property White_Space.
pub open spec fn is_whitespace(c: char) -> bool {
    let u = c as u32;
    (0x09 <= u <= 0x0D) || u == 0x20 || u == 0x85 || u == 0xA0 || u == 0x1680 || (0x2000 <= u
        <= 0x200A) || u == 0x2028 || u == 0x2029 || u == 0x202F || u == 0x205F || u == 0x3000
}

/// Tells whether `c` is whitespace.
pub fn is_space(c: char) -> (b: bool)
    ensures
        b == is_whitespace(c),
{
    let u: u32 = c as u32;
    (0x09 <= u && u <= 0x0D) || u == 0x20 || u == 0x85 || u == 0xA0 || u == 0x1680 || (0x2000
        <= u && u <= 0x200A) || u == 0x2028 || u == 0x2029 || u == 0x202F || u == 0x205F || u
        == 0x3000
}

/// `s` without the whitespace it starts with.
pub open spec fn trimmed_start(s: Seq<char>) -> Seq<char>
    decreases s.len(),
{
    if s.len() > 0 && is_whitespace(s[0]) {
        trimmed_start(s.drop_first())
    } else {
        s
    }
}

/// `s` without the whitespace it ends with.
pub open spec fn trimmed_end(s: Seq<char>) -> Seq<char>
    decreases s.len(),
{
    if s.len() > 0 && is_whitespace(s.last()) {
        trimmed_end(s.drop_last())
    } else {
        s
    }
}

/// `s` without the whitespace at either end.
pub open spec fn trimmed(s: Seq<char>) -> Seq<char> {
    trimmed_end(trimmed_start(s))
}

/// The number of whitespace characters that `chars` starts with.
fn leading_spaces(chars: &Vec<char>) -> (n: usize)
    ensures
        n <= chars@.len(),
        trimmed_start(chars@) == chars@.skip(n as int),
{
    let mut n: usize = 0;
    assert(chars@.skip(0) =~= chars@);
    while n < chars.len() && is_space(chars[n])
        invariant
            n <= chars@.len(),
            trimmed_start(chars@) == trimmed_start(chars@.skip(n as int)),
        decreases chars@.len() - n,
    {
        assert(chars@.skip(n as int).drop_first() =~= chars@.skip(n + 1));
        n = n + 1;
    }
    n
}

/// The end of `chars[from..]` once the whitespace it ends with is left out.
fn trimmed_end_index(chars: &Vec<char>, from: usize) -> (end: usize)
    requires
        from <= chars@.len(),
    ensures
        from <= end <= chars@.len(),
        trimmed_end(chars@.skip(from as int)) == chars@.subrange(from as int, end as int),
{
    let mut end: usize = chars.len();
    assert(chars@.subrange(from as int, end as int) =~= chars@.skip(from as int));
    while end > from && is_space(chars[end - 1])
        invariant
            from <= end <= chars@.len(),
            trimmed_end(chars@.skip(from as int)) == trimmed_end(
                chars@.subrange(from as int, end as int),
            ),
        decreases end,
    {
        assert(chars@.subrange(from as int, end as int).drop_last() =~= chars@.subrange(
            from as int,
            end - 1,
        ));
        end = end - 1;
    }
    end
}

/// `text` without the whitespace it starts with.
pub fn trim_start(text: &str) -> (r: String)
    ensures
        r@ == trimmed_start(text@),
{
    let chars = chars_of(text);
    let from = leading_spaces(&chars);
    assert(text@.subrange(from as int, text@.len() as int) =~= text@.skip(from as int));
    slice_text(text, from, chars.len())
}

/// `text` without the whitespace at either end.
pub fn trim(text: &str) -> (r: String)
    ensures
        r@ == trimmed(text@),
{
    let chars = chars_of(text);
    let from = leading_spaces(&chars);
    let end = trimmed_end_index(&chars, from);
    slice_text(text, from, end)
}

/// `s` without the double quotes at either end.
pub open spec fn unquoted(s: Seq<char>) -> Seq<char> {
    without_closing_quotes(without_opening_quotes(s))
}

/// `s` without the double quotes it starts with.
pub open spec fn without_opening_quotes(s: Seq<char>) -> Seq<char>
    decreases s.len(),
{
    if s.len() > 0 && s[0] == '"' {
        without_opening_quotes(s.drop_first())
    } else {
        s
    }
}

/// `s` without the double quotes it ends with.
pub open spec fn without_closing_quotes(s: Seq<char>) -> Seq<char>
    decreases s.len(),
{
    if s.len() > 0 && s.last() == '"' {
        without_closing_quotes(s.drop_last())
    } else {
        s
    }
}

/// `text` without the double quotes at either end.
pub fn strip_quotes(text: &str) -> (r: String)
    ensures
        r@ == unquoted(text@),
{
    let chars = chars_of(text);
    let mut from: usize = 0;
    assert(chars@.skip(0) =~= chars@);
    while from < chars.len() && chars[from] == '"'
        invariant
            from <= chars@.len(),
            without_opening_quotes(chars@) == without_opening_quotes(chars@.skip(from as int)),
        decreases chars@.len() - from,
    {
        assert(chars@.skip(from as int).drop_first() =~= chars@.skip(from + 1));
        from = from + 1;
    }
    let mut end: usize = chars.len();
    assert(chars@.subrange(from as int, end as int) =~= chars@.skip(from as int));
    while end > from && chars[end - 1] == '"'
        invariant
            from <= end <= chars@.len(),
            without_closing_quotes(chars@.skip(from as int)) == without_closing_quotes(
                chars@.subrange(from as int, end as int),
            ),
        decreases end,
    {
        assert(chars@.subrange(from as int, end as int).drop_last() =~= chars@.subrange(
            from as int,
            end - 1,
        ));
        end = end - 1;
    }
    slice_text(text, from, end)
}

/// The first character of `text` that is no whitespace.
pub fn first_visible(text: &str) -> (r: Option<char>)
    ensures
        match r {
            Some(c) => trimmed_start(text@).len() > 0 && trimmed_start(text@)[0] == c,
            None => trimmed_start(text@).len() == 0,
        },
{
    let chars = chars_of(text);
    let from = leading_spaces(&chars);
    if from < chars.len() {
        Some(chars[from])
    } else {
        None
    }
}

/// True when `pattern` stands in `text` at index `i`.
pub open spec fn occurs_at(text: Seq<char>, pattern: Seq<char>, i: int) -> bool {
    0 <= i && i + pattern.len() <= text.len() && text.subrange(i, i + pattern.len()) == pattern
}

/// The least index from `from` on at which `pattern` stands in `text`.
pub open spec fn first_occurrence(text: Seq<char>, pattern: Seq<char>, from: int) -> Option<int>
    decreases text.len() - from + 1,
{
    if from < 0 || from + pattern.len() > text.len() {
        None
    } else if occurs_at(text, pattern, from) {
        Some(from)
    } else {
        first_occurrence(text, pattern, from + 1)
    }
}

/// True when `pattern` stands somewhere in `text`.
pub open spec fn contains(text: Seq<char>, pattern: Seq<char>) -> bool {
    first_occurrence(text, pattern, 0) is Some
}

/// `first_occurrence` finds an occurrence, none stands between `from` and
/// it, and where it finds none there is none from `from` on.
pub proof fn lemma_first_occurrence(text: Seq<char>, pattern: Seq<char>, from: int)
    requires
        0 <= from,
    ensures
        match first_occurrence(text, pattern, from) {
            Some(i) => from <= i && occurs_at(text, pattern, i) && forall|j: int|
                from <= j < i ==> !occurs_at(text, pattern, j),
            None => forall|j: int| from <= j ==> !occurs_at(text, pattern, j),
        },
    decreases text.len() - from + 1,
{
    if from + pattern.len() <= text.len() && !occurs_at(text, pattern, from) {
        lemma_first_occurrence(text, pattern, from + 1);
    }
}

/// A pattern that stands somewhere in a text is contained in it.
pub proof fn lemma_occurrence_is_contained(text: Seq<char>, pattern: Seq<char>, i: int)
    requires
        occurs_at(text, pattern, i),
    ensures
        contains(text, pattern),
{
    lemma_first_occurrence(text, pattern, 0);
}

/// A pattern contained in a text is contained in every text that holds
/// that text.
pub proof fn lemma_contained_within(
    before: Seq<char>,
    text: Seq<char>,
    after: Seq<char>,
    pattern: Seq<char>,
)
    requires
        contains(text, pattern),
    ensures
        contains(before + text + after, pattern),
{
    lemma_first_occurrence(text, pattern, 0);
    let i = first_occurrence(text, pattern, 0)->0;
    let whole = before + text + after;
    let at = before.len() + i;
    assert(whole.subrange(at, at + pattern.len()) =~= text.subrange(i, i + pattern.len()));
    lemma_occurrence_is_contained(whole, pattern, at);
}

/// A pattern does not stand where one of its characters differs from the
/// text.
pub proof fn lemma_mismatch(text: Seq<char>, pattern: Seq<char>, at: int, k: int)
    requires
        0 <= k < pattern.len(),
        0 <= at,
        at + k < text.len(),
        text[at + k] != pattern[k],
    ensures
        !occurs_at(text, pattern, at),
{
    if occurs_at(text, pattern, at) {
        assert(text.subrange(at, at + pattern.len())[k] == text[at + k]);
    }
}

/// The first occurrence from `from` on is the one before which none
/// stands.
pub proof fn lemma_first_occurrence_is(text: Seq<char>, pattern: Seq<char>, from: int, i: int)
    requires
        0 <= from <= i,
        occurs_at(text, pattern, i),
        forall|j: int| from <= j < i ==> !occurs_at(text, pattern, j),
    ensures
        first_occurrence(text, pattern, from) == Some(i),
{
    lemma_first_occurrence(text, pattern, from);
}

/// There is no first occurrence where the pattern stands nowhere from
/// `from` on.
pub proof fn lemma_no_occurrence(text: Seq<char>, pattern: Seq<char>, from: int)
    requires
        0 <= from,
        forall|j: int| from <= j ==> !occurs_at(text, pattern, j),
    ensures
        first_occurrence(text, pattern, from) is None,
{
    lemma_first_occurrence(text, pattern, from);
}

/// A text that does not contain a pattern holds it at no index.
pub proof fn lemma_not_contained(text: Seq<char>, pattern: Seq<char>)
    requires
        !contains(text, pattern),
    ensures
        forall|j: int| !occurs_at(text, pattern, j),
{
    lemma_first_occurrence(text, pattern, 0);
}

/// Tells whether `pattern` stands in `text` at index `i`.
fn matches_at(text: &Vec<char>, pattern: &Vec<char>, i: usize) -> (b: bool)
    requires
        i + pattern@.len() <= text@.len(),
    ensures
        b == occurs_at(text@, pattern@, i as int),
{
    let text_len = text.len();
    let mut k: usize = 0;
    while k < pattern.len()
        invariant
            k <= pattern@.len(),
            i + pattern@.len() <= text@.len() == text_len,
            forall|j: int| 0 <= j < k ==> text@[i + j] == pattern@[j],
        decreases pattern@.len() - k,
    {
        if text[i + k] != pattern[k] {
            assert(text@.subrange(i as int, i + pattern@.len())[k as int] != pattern@[k as int]);
            return false;
        }
        k = k + 1;
    }
    assert(text@.subrange(i as int, i + pattern@.len()) =~= pattern@);
    true
}

/// Finds the first occurrence of `pattern` in `text` from index `from` on.
pub fn find_from(text: &Vec<char>, pattern: &Vec<char>, from: usize) -> (r: Option<usize>)
    ensures
        match r {
            Some(i) => first_occurrence(text@, pattern@, from as int) == Some(i as int) && from
                <= i && i + pattern@.len() <= text@.len(),
            None => first_occurrence(text@, pattern@, from as int) is None,
        },
{
    if pattern.len() > text.len() || from > text.len() - pattern.len() {
        return None;
    }
    let last: usize = text.len() - pattern.len();
    let mut i: usize = from;
    loop
        invariant
            from <= i <= last,
            last + pattern@.len() == text@.len(),
            first_occurrence(text@, pattern@, from as int) == first_occurrence(
                text@,
                pattern@,
                i as int,
            ),
        decreases last - i,
    {
        if matches_at(text, pattern, i) {
            return Some(i);
        }
        if i == last {
            assert(first_occurrence(text@, pattern@, i + 1) is None);
            return None;
        }
        i = i + 1;
    }
}

/// The text from index `from` up to the next occurrence of `pattern`, or up
/// to the end where there is none.
pub open spec fn piece_from(text: Seq<char>, pattern: Seq<char>, from: int) -> Seq<char> {
    match first_occurrence(text, pattern, from) {
        Some(i) => text.subrange(from, i),
        None => text.skip(from),
    }
}

/// What stands before the first occurrence of `pattern` in `text`: all of
/// `text` where there is none.
pub open spec fn first_piece(text: Seq<char>, pattern: Seq<char>) -> Seq<char> {
    piece_from(text, pattern, 0)
}

/// What stands between the first occurrence of `pattern` in `text` and the
/// next one after it: nothing where `pattern` does not occur.
pub open spec fn second_piece(text: Seq<char>, pattern: Seq<char>) -> Seq<char> {
    match first_occurrence(text, pattern, 0) {
        Some(i) => piece_from(text, pattern, i + pattern.len()),
        None => Seq::empty(),
    }
}

/// Cuts `text` at the occurrences of `pattern` and returns the first two
/// pieces.
pub fn first_two_pieces(text: &str, pattern: &str) -> (r: (String, String))
    ensures
        r.0@ == first_piece(text@, pattern@),
        r.1@ == second_piece(text@, pattern@),
{
    let chars = chars_of(text);
    let wanted = chars_of(pattern);
    let len = chars.len();
    match find_from(&chars, &wanted, 0) {
        None => {
            assert(text@.subrange(0, len as int) =~= text@.skip(0));
            (slice_text(text, 0, len), String::new())
        },
        Some(i) => {
            let head = slice_text(text, 0, i);
            let start: usize = i + wanted.len();
            let next = match find_from(&chars, &wanted, start) {
                Some(j) => slice_text(text, start, j),
                None => {
                    assert(text@.subrange(start as int, len as int) =~= text@.skip(start as int));
                    slice_text(text, start, len)
                },
            };
            (head, next)
        },
    }
}

/// Tells whether `pattern` stands somewhere in `text`.
pub fn has_pattern(text: &str, pattern: &str) -> (b: bool)
    ensures
        b == contains(text@, pattern@),
{
    let chars = chars_of(text);
    let wanted = chars_of(pattern);
    find_from(&chars, &wanted, 0).is_some()
}

/// The character of the digit `d`.
pub open spec fn digit(d: int) -> char
    recommends
        0 <= d < 10,
{
    if d == 0 {
        '0'
    } else if d == 1 {
        '1'
    } else if d == 2 {
        '2'
    } else if d == 3 {
        '3'
    } else if d == 4 {
        '4'
    } else if d == 5 {
        '5'
    } else if d == 6 {
        '6'
    } else if d == 7 {
        '7'
    } else if d == 8 {
        '8'
    } else {
        '9'
    }
}

/// The decimal digits of `n`, without leading zeros.
pub open spec fn natural_text(n: nat) -> Seq<char>
    decreases n,
{
    if n < 10 {
        seq![digit(n as int)]
    } else {
        natural_text(n / 10).push(digit((n % 10) as int))
    }
}

/// `n` in decimal, with a minus sign where it is negative.
pub open spec fn decimal_text(n: int) -> Seq<char> {
    if n < 0 {
        seq!['-'] + natural_text((-n) as nat)
    } else {
        natural_text(n as nat)
    }
}

/// The one-character string of the digit `d`.
fn digit_str(d: u64) -> (s: &'static str)
    requires
        d < 10,
    ensures
        s@ == seq![digit(d as int)],
{
    proof {
        reveal_strlit("0");
        reveal_strlit("1");
        reveal_strlit("2");
        reveal_strlit("3");
        reveal_strlit("4");
        reveal_strlit("5");
        reveal_strlit("6");
        reveal_strlit("7");
        reveal_strlit("8");
        reveal_strlit("9");
    }
    let s = if d == 0 {
        "0"
    } else if d == 1 {
        "1"
    } else if d == 2 {
        "2"
    } else if d == 3 {
        "3"
    } else if d == 4 {
        "4"
    } else if d == 5 {
        "5"
    } else if d == 6 {
        "6"
    } else if d == 7 {
        "7"
    } else if d == 8 {
        "8"
    } else {
        "9"
    };
    assert(s@ =~= seq![digit(d as int)]);
    s
}

/// Writes a natural number in decimal.
pub fn natural_to_string(n: u64) -> (r: String)
    ensures
        r@ == natural_text(n as nat),
    decreases n,
{
    if n < 10 {
        String::from_str(digit_str(n))
    } else {
        let mut r = natural_to_string(n / 10);
        r.append(digit_str(n % 10));
        assert(r@ =~= natural_text(n as nat));
        r
    }
}

/// Writes an integer in decimal.
pub fn decimal(n: i64) -> (r: String)
    ensures
        r@ == decimal_text(n as int),
{
    if n < 0 {
        let magnitude: u64 = if n == i64::MIN {
            0x8000_0000_0000_0000u64
        } else {
            (-n) as u64
        };
        let digits = natural_to_string(magnitude);
        let mut r = String::from_str("-");
        proof {
            reveal_strlit("-");
        }
        r.append(digits.as_str());
        assert(r@ =~= decimal_text(n as int));
        r
    } else {
        natural_to_string(n as u64)
    }
}

} // verus!
