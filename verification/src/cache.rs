//! Whether a cached document still holds every part that is unlocked.

use vstd::prelude::*;
use crate::client::{assembly, part_text, with_part};
use crate::document::{
    lemma_marker_text,
    lemma_separator_keeps_other_marker_out,
    lemma_separator_shape,
    marker,
    separator,
};
use crate::error::EcError;
use crate::models::{CacheDecision, PayloadView, QuestKeys};
use crate::text::{
    contains,
    first_occurrence,
    has_pattern,
    lemma_contained_within,
    lemma_first_occurrence,
    lemma_occurrence_is_contained,
};

verus! {

/// How many parts `document` holds: part 1, and each of parts 2 and 3
/// whose marker stands in it.
pub open spec fn cached_parts(document: Seq<char>) -> int {
    1 + (if contains(document, marker(2)) {
        1int
    } else {
        0int
    }) + (if contains(document, marker(3)) {
        1int
    } else {
        0int
    })
}

/// True when `document` holds fewer parts than `keys` unlock.
pub open spec fn stale(document: Seq<char>, keys: QuestKeys) -> bool {
    cached_parts(document) < keys.available_parts()
}

/// Counts the parts that a cached document holds.
pub fn cached_part_count(cached_document: &str) -> (n: usize)
    ensures
        n == cached_parts(cached_document@),
        1 <= n <= 3,
{
    proof {
        lemma_marker_text();
    }
    let mut n: usize = 1;
    if has_pattern(cached_document, " PART 2 ") {
        n = n + 1;
    }
    if has_pattern(cached_document, " PART 3 ") {
        n = n + 1;
    }
    n
}

/// Compares a cached document with the keys that are available now.
pub fn cache_decision(cached_document: &str, current_keys: &QuestKeys) -> (decision: CacheDecision)
    ensures
        decision.cached_part_count == cached_parts(cached_document@),
        decision.available_part_count == current_keys.available_parts(),
        decision.is_stale == stale(cached_document@, *current_keys),
{
    let available_part_count = current_keys.available_part_count();
    let cached_part_count = cached_part_count(cached_document);
    CacheDecision {
        is_stale: cached_part_count < available_part_count,
        available_part_count,
        cached_part_count,
    }
}

/// Tells whether a cached document has to be fetched again: it has, exactly
/// when it holds fewer parts than are unlocked now.
pub fn is_stale(cached_document: &str, current_keys: &QuestKeys) -> (b: bool)
    ensures
        b == stale(cached_document@, *current_keys),
{
    cache_decision(cached_document, current_keys).is_stale
}

/// A cache is never stale when it holds as many parts as are unlocked, or
/// more.
pub proof fn lemma_complete_cache_is_fresh(document: Seq<char>, keys: QuestKeys)
    requires
        cached_parts(document) >= keys.available_parts(),
    ensures
        !stale(document, keys),
{
}

/// A cache that holds all three parts is never stale, and one that holds
/// part 1 alone is stale as soon as a second key is there.
pub proof fn lemma_stale_bounds(document: Seq<char>, keys: QuestKeys)
    ensures
        1 <= cached_parts(document) <= 3,
        1 <= keys.available_parts() <= 3,
        cached_parts(document) == 3 ==> !stale(document, keys),
        cached_parts(document) == 1 && keys.key2 is Some ==> stale(document, keys),
{
}

/// The number of parts joined into a document: 1 for a part that the
/// payload holds and whose key is there, 0 for any other.
pub open spec fn joined(payload: PayloadView, keys: QuestKeys, part: int) -> int {
    if part_text(payload, keys, part) is Some {
        1
    } else {
        0
    }
}

/// True when no text that `payload` decrypts to under `keys` contains the
/// marker of part 2 or 3.
pub open spec fn texts_hold_no_marker(payload: PayloadView, keys: QuestKeys) -> bool {
    forall|part: int|
        1 <= part <= 3 ==> (#[trigger] part_text(payload, keys, part) matches Some(Ok(text))
            ==> !contains(text, marker(2)) && !contains(text, marker(3)))
}

/// An assembled document shows exactly the parts that were joined into it:
/// where no decrypted text contains a marker itself, the marker of part 2
/// or 3 stands in the document if and only if that part was joined.
pub proof fn lemma_assembled_parts_are_counted(
    payload: PayloadView,
    keys: QuestKeys,
    document: Seq<char>,
)
    requires
        assembly(payload, keys) == Ok::<Seq<char>, EcError>(document),
        texts_hold_no_marker(payload, keys),
    ensures
        contains(document, marker(2)) <==> part_text(payload, keys, 2) is Some,
        contains(document, marker(3)) <==> part_text(payload, keys, 3) is Some,
        cached_parts(document) == 1 + joined(payload, keys, 2) + joined(payload, keys, 3),
{
    let empty = Seq::<char>::empty();
    let first = with_part(Ok(empty), payload, keys, 1);
    let second = with_part(first, payload, keys, 2);
    assert(first is Ok && second is Ok);
    let d1 = first->Ok_0;
    let d2 = second->Ok_0;
    lemma_marker_text();
    assert(!contains(empty, marker(2)) && !contains(empty, marker(3)));
    assert(part_text(payload, keys, 1) is Some ==> part_text(payload, keys, 1)->0 is Ok);
    assert(part_text(payload, keys, 2) is Some ==> part_text(payload, keys, 2)->0 is Ok);
    assert(part_text(payload, keys, 3) is Some ==> part_text(payload, keys, 3)->0 is Ok);
    // Part 1 has no separator: the document is its text, or empty.
    match part_text(payload, keys, 1) {
        Some(Ok(text)) => {
            assert(d1 =~= text);
        },
        _ => {
            assert(d1 =~= empty);
        },
    }
    assert(!contains(d1, marker(2)) && !contains(d1, marker(3)));
    // Part 2 brings its own marker, and not that of part 3.
    match part_text(payload, keys, 2) {
        Some(Ok(text)) => {
            assert(d2 =~= d1 + separator(2) + text);
            lemma_separator_shape(2);
            lemma_occurrence_is_contained(separator(2), marker(2), 83);
            lemma_contained_within(d1, separator(2), text, marker(2));
            lemma_separator_keeps_other_marker_out(d1, 2, text, 3);
        },
        _ => {
            assert(d2 == d1);
        },
    }
    // Part 3 brings its own marker, and leaves that of part 2 as it was.
    match part_text(payload, keys, 3) {
        Some(Ok(text)) => {
            assert(document =~= d2 + separator(3) + text);
            lemma_separator_shape(3);
            lemma_occurrence_is_contained(separator(3), marker(3), 83);
            lemma_contained_within(d2, separator(3), text, marker(3));
            if contains(d2, marker(2)) {
                assert(d2 + separator(3) + text =~= empty + d2 + (separator(3) + text));
                lemma_contained_within(empty, d2, separator(3) + text, marker(2));
            } else {
                lemma_separator_keeps_other_marker_out(d2, 3, text, 2);
            }
        },
        _ => {
            assert(document == d2);
        },
    }
}

/// A document that was just assembled is not stale: where the payload
/// holds every part whose key is there, and no decrypted text contains a
/// marker itself, the document holds as many parts as the keys unlock.
pub proof fn lemma_fresh_document_is_not_stale(
    payload: PayloadView,
    keys: QuestKeys,
    document: Seq<char>,
)
    requires
        assembly(payload, keys) == Ok::<Seq<char>, EcError>(document),
        texts_hold_no_marker(payload, keys),
        keys.key2 is Some ==> payload.ciphertext(2) is Some,
        keys.key3 is Some ==> payload.ciphertext(3) is Some,
    ensures
        cached_parts(document) == keys.available_parts(),
        !stale(document, keys),
{
    lemma_assembled_parts_are_counted(payload, keys, document);
}

/// A text that contains the separator of part 2 or 3 contains the part's
/// marker.
pub proof fn lemma_contains_marker_of_separator(text: Seq<char>, part: int)
    requires
        part == 2 || part == 3,
        contains(text, separator(part)),
    ensures
        contains(text, marker(part)),
{
    lemma_separator_shape(part);
    lemma_first_occurrence(text, separator(part), 0);
    let at = first_occurrence(text, separator(part), 0)->0;
    assert(text.subrange(at + 83, at + 91) =~= text.subrange(at, at + 174).subrange(83, 91));
    lemma_occurrence_is_contained(text, marker(part), at + 83);
}

/// With the first two keys and no third, a payload that holds parts 1 and 2
/// gives a document of two parts: the two texts with the separator of
/// part 2 between them, which shows the marker of part 2 and not that of
/// part 3.
pub proof fn lemma_two_keys_give_two_parts(
    payload: PayloadView,
    keys: QuestKeys,
    document: Seq<char>,
)
    requires
        keys.key2 is Some,
        keys.key3 is None,
        payload.ciphertext(1) is Some,
        payload.ciphertext(2) is Some,
        assembly(payload, keys) == Ok::<Seq<char>, EcError>(document),
        texts_hold_no_marker(payload, keys),
    ensures
        part_text(payload, keys, 1) matches Some(Ok(first)) && part_text(
            payload,
            keys,
            2,
        ) matches Some(Ok(second)) && document == first + separator(2) + second,
        contains(document, separator(2)),
        contains(document, marker(2)),
        !contains(document, separator(3)),
        !contains(document, marker(3)),
        cached_parts(document) == 2,
{
    lemma_assembled_parts_are_counted(payload, keys, document);
    let first = part_text(payload, keys, 1)->0->Ok_0;
    let second = part_text(payload, keys, 2)->0->Ok_0;
    assert(document =~= first + separator(2) + second);
    lemma_separator_shape(2);
    assert(separator(2).subrange(0, 174) =~= separator(2));
    lemma_occurrence_is_contained(separator(2), separator(2), 0);
    lemma_contained_within(first, separator(2), second, separator(2));
    if contains(document, separator(3)) {
        lemma_contains_marker_of_separator(document, 3);
    }
}

/// A cache that shows part 2 and not part 3 is stale once all three keys
/// are there, and fresh while the third is missing.
pub proof fn lemma_two_part_cache(document: Seq<char>, keys: QuestKeys)
    requires
        contains(document, marker(2)),
        !contains(document, marker(3)),
        keys.key2 is Some,
    ensures
        keys.key3 is Some ==> stale(document, keys),
        keys.key3 is None ==> !stale(document, keys),
{
}

} // verus!
