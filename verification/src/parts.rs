//! The parts of an assembled document, found again by the labels in its
//! separators.

use vstd::prelude::*;
use crate::client::{assembly, part_text, with_part};
use crate::document::{
    lemma_marker_text,
    lemma_separator_shape,
    marker,
    rule_line,
    separator,
};
use crate::error::EcError;
use crate::models::{PayloadView, QuestKeys};
use crate::text::{
    contains,
    decimal_text,
    first_occurrence,
    first_piece,
    first_two_pieces,
    lemma_first_occurrence_is,
    lemma_mismatch,
    lemma_no_occurrence,
    lemma_not_contained,
    occurs_at,
    piece_from,
    second_piece,
};

verus! {

/// The label of a part: the word "PART" and the part's number.
pub open spec fn label(part: int) -> Seq<char> {
    "PART "@ + decimal_text(part)
}

/// The text of part 1 in `document`: what stands before the label of
/// part 2.
pub open spec fn part_one_text(document: Seq<char>) -> Seq<char> {
    first_piece(document, label(2))
}

/// The text of part 2 in `document`: what follows the label of part 2, up
/// to the label of part 3.
pub open spec fn part_two_text(document: Seq<char>) -> Seq<char> {
    first_piece(second_piece(document, label(2)), label(3))
}

/// The text of part 3 in `document`: what follows the label of part 3
/// behind that of part 2.
pub open spec fn part_three_text(document: Seq<char>) -> Seq<char> {
    second_piece(second_piece(document, label(2)), label(3))
}

/// Cuts an assembled document into the texts of its three parts, at the
/// labels of parts 2 and 3. A part that the document does not hold has an
/// empty text.
pub fn split_parts(document: &str) -> (parts: (String, String, String))
    ensures
        parts.0@ == part_one_text(document@),
        parts.1@ == part_two_text(document@),
        parts.2@ == part_three_text(document@),
{
    proof {
        lemma_label_text();
    }
    let (part1, rest) = first_two_pieces(document, "PART 2");
    let (part2, part3) = first_two_pieces(rest.as_str(), "PART 3");
    (part1, part2, part3)
}

/// The labels of parts 2 and 3, written out.
pub proof fn lemma_label_text()
    ensures
        label(2) == "PART 2"@,
        label(3) == "PART 3"@,
        label(2) == seq!['P', 'A', 'R', 'T', ' ', '2'],
        label(3) == seq!['P', 'A', 'R', 'T', ' ', '3'],
{
    reveal_strlit("PART ");
    reveal_strlit("PART 2");
    reveal_strlit("PART 3");
    assert(decimal_text(2) =~= seq!['2']);
    assert(decimal_text(3) =~= seq!['3']);
    assert(label(2) =~= seq!['P', 'A', 'R', 'T', ' ', '2']);
    assert(label(3) =~= seq!['P', 'A', 'R', 'T', ' ', '3']);
    assert("PART 2"@ =~= seq!['P', 'A', 'R', 'T', ' ', '2']);
    assert("PART 3"@ =~= seq!['P', 'A', 'R', 'T', ' ', '3']);
}

/// What stands in a separator before the label: an empty line, a rule, and
/// the space that opens the marker.
pub open spec fn separator_head() -> Seq<char> {
    "\n\n"@ + rule_line() + "\n "@
}

/// What stands in a separator behind the label: the space that closes the
/// marker, a rule, and an empty line.
pub open spec fn separator_tail() -> Seq<char> {
    " \n"@ + rule_line() + "\n\n"@
}

/// A separator is its head, the label of its part, and its tail, of 84, 6
/// and 84 characters; no character of the head or the tail is a `P`.
pub proof fn lemma_separator_parts(part: int)
    requires
        part == 2 || part == 3,
    ensures
        separator(part) == separator_head() + label(part) + separator_tail(),
        separator_head().len() == 84,
        separator_tail().len() == 84,
        label(part).len() == 6,
        forall|i: int| 0 <= i < 84 ==> separator_head()[i] != 'P',
        forall|i: int| 0 <= i < 84 ==> separator_tail()[i] != 'P',
{
    lemma_label_text();
    lemma_marker_text();
    lemma_separator_shape(part);
    reveal_strlit("\n\n");
    reveal_strlit("\n");
    reveal_strlit("\n ");
    reveal_strlit(" \n");
    let head = separator_head();
    let tail = separator_tail();
    assert(head.len() == 84);
    assert(tail.len() == 84);
    assert(marker(part) =~= seq![' '] + label(part) + seq![' ']);
    assert(separator(part) =~= head + label(part) + tail);
    assert forall|i: int| 0 <= i < 84 implies head[i] != 'P' by {
        if 2 <= i < 82 {
            assert(head[i] == rule_line()[i - 2]);
        }
    }
    assert forall|i: int| 0 <= i < 84 implies tail[i] != 'P' by {
        if 2 <= i < 82 {
            assert(tail[i] == rule_line()[i - 2]);
        }
    }
}

/// A separator begins with a line break, holds the digit of its part as
/// its 90th character, and holds a `P` as its 85th character only.
pub proof fn lemma_separator_letters(part: int)
    requires
        part == 2 || part == 3,
    ensures
        separator(part).len() == 174,
        separator(part)[0] == '\n',
        separator(part)[89] == label(part)[5],
        forall|q: int| 0 <= q < 174 && q != 84 ==> separator(part)[q] != 'P',
{
    lemma_label_text();
    lemma_separator_parts(part);
    reveal_strlit("\n\n");
    let sep = separator(part);
    let head = separator_head();
    let tail = separator_tail();
    assert(sep[0] == head[0]);
    assert(sep[89] == label(part)[5]);
    assert forall|q: int| 0 <= q < 174 && q != 84 implies sep[q] != 'P' by {
        if q < 84 {
            assert(sep[q] == head[q]);
        } else if q < 90 {
            assert(sep[q] == label(part)[q - 84]);
        } else {
            assert(sep[q] == tail[q - 90]);
        }
    }
}

/// Where the label of a part stands in a text that holds a separator: at
/// an index of the separator only as the separator's own label, and
/// otherwise within the text before the separator or within the text after
/// it.
pub proof fn lemma_label_across_separator(
    before: Seq<char>,
    part: int,
    after: Seq<char>,
    wanted: int,
    at: int,
)
    requires
        part == 2 || part == 3,
        wanted == 2 || wanted == 3,
        occurs_at(before + separator(part) + after, label(wanted), at),
    ensures
        (at + 6 <= before.len() && occurs_at(before, label(wanted), at)) || (at == before.len()
            + 84 && wanted == part) || (at >= before.len() + 174 && occurs_at(
            after,
            label(wanted),
            at - before.len() - 174,
        )),
{
    let whole = before + separator(part) + after;
    let sought = label(wanted);
    let a = before.len() as int;
    let b = a + 174;
    lemma_label_text();
    lemma_separator_letters(part);
    if at + 6 <= a {
        assert(before.subrange(at, at + 6) =~= whole.subrange(at, at + 6));
    } else if at >= b {
        assert(after.subrange(at - b, at - b + 6) =~= whole.subrange(at, at + 6));
    } else if at == a + 84 && wanted == part {
    } else {
        // An index of the separator that the six characters from `at` on
        // cover, and at which the label cannot stand.
        let p = if at < a {
            a
        } else if at == a + 84 {
            a + 89
        } else {
            at
        };
        assert(whole[p] == separator(part)[p - a]);
        lemma_mismatch(whole, sought, at, p - at);
    }
}

/// The label of a part stands in its separator, 84 characters in.
pub proof fn lemma_label_in_separator(before: Seq<char>, part: int, after: Seq<char>)
    requires
        part == 2 || part == 3,
    ensures
        occurs_at(before + separator(part) + after, label(part), before.len() as int + 84),
{
    let whole = before + separator(part) + after;
    let a = before.len() as int;
    lemma_separator_parts(part);
    assert(whole.subrange(a + 84, a + 90) =~= label(part));
}

/// A label stands in a text that begins with the tail of a separator only
/// behind that tail.
pub proof fn lemma_label_behind_tail(after: Seq<char>, wanted: int, at: int)
    requires
        wanted == 2 || wanted == 3,
        occurs_at(separator_tail() + after, label(wanted), at),
    ensures
        at >= 84,
        occurs_at(after, label(wanted), at - 84),
{
    let whole = separator_tail() + after;
    lemma_label_text();
    lemma_separator_parts(2);
    if at < 84 {
        assert(whole[at] == separator_tail()[at]);
        lemma_mismatch(whole, label(wanted), at, 0);
    } else {
        assert(after.subrange(at - 84, at - 84 + 6) =~= whole.subrange(at, at + 6));
    }
}

/// The first label of a part in a text that holds the part's separator is
/// the separator's own, where the text before the separator does not
/// contain the label.
pub proof fn lemma_first_label(before: Seq<char>, part: int, after: Seq<char>)
    requires
        part == 2 || part == 3,
        !contains(before, label(part)),
    ensures
        first_occurrence(before + separator(part) + after, label(part), 0) == Some(
            before.len() as int + 84,
        ),
        first_piece(before + separator(part) + after, label(part)) == before + separator_head(),
{
    let whole = before + separator(part) + after;
    let a = before.len() as int;
    lemma_not_contained(before, label(part));
    lemma_label_in_separator(before, part, after);
    lemma_separator_parts(part);
    assert forall|j: int| 0 <= j < a + 84 implies !occurs_at(whole, label(part), j) by {
        if occurs_at(whole, label(part), j) {
            lemma_label_across_separator(before, part, after, part, j);
        }
    }
    lemma_first_occurrence_is(whole, label(part), 0, a + 84);
    assert(whole.subrange(0, a + 84) =~= before + separator_head());
}

/// Behind the label of a separator, no label of a part stands before the
/// end of the text, where the text after the separator does not contain
/// it: what is left is the separator's tail and that text.
pub proof fn lemma_no_label_behind(before: Seq<char>, part: int, after: Seq<char>, wanted: int)
    requires
        part == 2 || part == 3,
        wanted == 2 || wanted == 3,
        !contains(after, label(wanted)),
    ensures
        piece_from(before + separator(part) + after, label(wanted), before.len() as int + 90)
            == separator_tail() + after,
{
    let whole = before + separator(part) + after;
    let a = before.len() as int;
    lemma_not_contained(after, label(wanted));
    lemma_separator_parts(part);
    assert forall|j: int| a + 90 <= j implies !occurs_at(whole, label(wanted), j) by {
        if occurs_at(whole, label(wanted), j) {
            lemma_label_across_separator(before, part, after, wanted, j);
        }
    }
    lemma_no_occurrence(whole, label(wanted), a + 90);
    assert(whole.skip(a + 90) =~= separator_tail() + after);
}

/// A text that begins with the tail of a separator does not contain a
/// label that the text behind the tail does not contain.
pub proof fn lemma_tail_brings_no_label(after: Seq<char>, wanted: int)
    requires
        wanted == 2 || wanted == 3,
        !contains(after, label(wanted)),
    ensures
        !contains(separator_tail() + after, label(wanted)),
{
    let whole = separator_tail() + after;
    lemma_not_contained(after, label(wanted));
    assert forall|j: int| 0 <= j implies !occurs_at(whole, label(wanted), j) by {
        if occurs_at(whole, label(wanted), j) {
            lemma_label_behind_tail(after, wanted, j);
        }
    }
    lemma_no_occurrence(whole, label(wanted), 0);
}

/// The separator of one part brings the label of the other into no text:
/// where neither the text before it nor the text after it contains that
/// label, the whole does not.
pub proof fn lemma_separator_keeps_other_label_out(
    before: Seq<char>,
    part: int,
    after: Seq<char>,
    other: int,
)
    requires
        (part == 2 && other == 3) || (part == 3 && other == 2),
        !contains(before, label(other)),
        !contains(after, label(other)),
    ensures
        !contains(before + separator(part) + after, label(other)),
{
    let whole = before + separator(part) + after;
    lemma_not_contained(before, label(other));
    lemma_not_contained(after, label(other));
    assert forall|j: int| 0 <= j implies !occurs_at(whole, label(other), j) by {
        if occurs_at(whole, label(other), j) {
            lemma_label_across_separator(before, part, after, other, j);
        }
    }
    lemma_no_occurrence(whole, label(other), 0);
}

/// A document of one part is all part 1: where the text does not contain
/// the label of part 2, cutting it gives the text and two empty parts.
pub proof fn lemma_split_one_part(first: Seq<char>)
    requires
        !contains(first, label(2)),
    ensures
        part_one_text(first) == first,
        part_two_text(first) == Seq::<char>::empty(),
        part_three_text(first) == Seq::<char>::empty(),
{
    let empty = Seq::<char>::empty();
    lemma_label_text();
    assert(first.skip(0) =~= first);
    assert(first_occurrence(empty, label(3), 0) is None);
    assert(empty.skip(0) =~= empty);
}

/// Cutting a document of two parts finds both again: where neither text
/// contains the label of part 2 and the second does not contain that of
/// part 3, part 1 is the first text and the head of the separator, part 2
/// is the tail of the separator and the second text, and part 3 is empty.
pub proof fn lemma_split_two_parts(first: Seq<char>, second: Seq<char>)
    requires
        !contains(first, label(2)),
        !contains(second, label(2)),
        !contains(second, label(3)),
    ensures
        part_one_text(first + separator(2) + second) == first + separator_head(),
        part_two_text(first + separator(2) + second) == separator_tail() + second,
        part_three_text(first + separator(2) + second) == Seq::<char>::empty(),
{
    let document = first + separator(2) + second;
    let rest = separator_tail() + second;
    lemma_label_text();
    lemma_first_label(first, 2, second);
    lemma_no_label_behind(first, 2, second, 2);
    assert(second_piece(document, label(2)) == rest);
    lemma_tail_brings_no_label(second, 3);
    assert(rest.skip(0) =~= rest);
}

/// Cutting a document of three parts finds all three again: where no text
/// contains the label of part 2 or 3, but for the first, which may contain
/// that of part 3, each part is its text between the tail of the separator
/// before it and the head of the separator behind it.
pub proof fn lemma_split_three_parts(first: Seq<char>, second: Seq<char>, third: Seq<char>)
    requires
        !contains(first, label(2)),
        !contains(second, label(2)),
        !contains(second, label(3)),
        !contains(third, label(2)),
        !contains(third, label(3)),
    ensures
        part_one_text(first + separator(2) + second + separator(3) + third) == first
            + separator_head(),
        part_two_text(first + separator(2) + second + separator(3) + third) == separator_tail()
            + second + separator_head(),
        part_three_text(first + separator(2) + second + separator(3) + third)
            == separator_tail() + third,
{
    let after = second + separator(3) + third;
    let document = first + separator(2) + second + separator(3) + third;
    assert(document =~= first + separator(2) + after);
    lemma_label_text();
    // The first label of part 2 is that of its separator, and none follows.
    lemma_first_label(first, 2, after);
    lemma_separator_keeps_other_label_out(second, 3, third, 2);
    lemma_no_label_behind(first, 2, after, 2);
    let rest = separator_tail() + after;
    assert(second_piece(document, label(2)) == rest);
    // In the rest, the first label of part 3 is that of its separator, and
    // none follows.
    let middle = separator_tail() + second;
    assert(rest =~= middle + separator(3) + third);
    lemma_tail_brings_no_label(second, 3);
    lemma_first_label(middle, 3, third);
    lemma_no_label_behind(middle, 3, third, 3);
    assert(middle.len() == 84 + second.len()) by {
        lemma_separator_parts(3);
    }
    assert(first_piece(rest, label(3)) =~= separator_tail() + second + separator_head());
}

/// True when no text that `payload` decrypts to under `keys` contains the
/// label of part 2 or 3.
pub open spec fn texts_hold_no_label(payload: PayloadView, keys: QuestKeys) -> bool {
    forall|part: int|
        1 <= part <= 3 ==> (#[trigger] part_text(payload, keys, part) matches Some(Ok(text))
            ==> !contains(text, label(2)) && !contains(text, label(3)))
}

/// The text that `part` brings into a document: empty where the part is
/// not joined.
pub open spec fn joined_text(payload: PayloadView, keys: QuestKeys, part: int) -> Seq<char> {
    match part_text(payload, keys, part) {
        Some(Ok(text)) => text,
        _ => Seq::empty(),
    }
}

/// The head of a separator where `part` is joined, nothing where it is
/// not.
pub open spec fn head_before(payload: PayloadView, keys: QuestKeys, part: int) -> Seq<char> {
    if part_text(payload, keys, part) is Some {
        separator_head()
    } else {
        Seq::empty()
    }
}

/// Cutting an assembled document gives its parts back: where part 1 is
/// joined, part 3 is joined only with part 2, and no decrypted text
/// contains a label itself, each part found is the text that was joined,
/// between the tail of the separator before it and the head of the
/// separator behind it, and a part that was not joined is found empty.
pub proof fn lemma_assembled_document_splits(
    payload: PayloadView,
    keys: QuestKeys,
    document: Seq<char>,
)
    requires
        assembly(payload, keys) == Ok::<Seq<char>, EcError>(document),
        texts_hold_no_label(payload, keys),
        part_text(payload, keys, 1) is Some,
        part_text(payload, keys, 3) is Some ==> part_text(payload, keys, 2) is Some,
    ensures
        part_one_text(document) == joined_text(payload, keys, 1) + head_before(payload, keys, 2),
        part_two_text(document) == (if part_text(payload, keys, 2) is Some {
            separator_tail() + joined_text(payload, keys, 2) + head_before(payload, keys, 3)
        } else {
            Seq::empty()
        }),
        part_three_text(document) == (if part_text(payload, keys, 3) is Some {
            separator_tail() + joined_text(payload, keys, 3)
        } else {
            Seq::empty()
        }),
{
    let empty = Seq::<char>::empty();
    let one = with_part(Ok(empty), payload, keys, 1);
    let two = with_part(one, payload, keys, 2);
    assert(one is Ok && two is Ok);
    assert(part_text(payload, keys, 1)->0 is Ok);
    assert(part_text(payload, keys, 2) is Some ==> part_text(payload, keys, 2)->0 is Ok);
    assert(part_text(payload, keys, 3) is Some ==> part_text(payload, keys, 3)->0 is Ok);
    let first = joined_text(payload, keys, 1);
    let second = joined_text(payload, keys, 2);
    let third = joined_text(payload, keys, 3);
    assert(one->Ok_0 =~= first);
    if part_text(payload, keys, 2) is None {
        assert(document =~= first);
        lemma_split_one_part(first);
        assert(first + empty =~= first);
    } else if part_text(payload, keys, 3) is None {
        assert(document =~= first + separator(2) + second);
        lemma_split_two_parts(first, second);
        assert(separator_tail() + second + empty =~= separator_tail() + second);
    } else {
        assert(two->Ok_0 =~= first + separator(2) + second);
        assert(document =~= first + separator(2) + second + separator(3) + third);
        lemma_split_three_parts(first, second, third);
    }
}

} // verus!
