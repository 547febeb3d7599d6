//! The shape of an assembled document: the texts of its parts, with a
//! separator before each of parts 2 and 3 that carries the part's marker.

use vstd::prelude::*;
use vstd::string::StringExecFns;
use crate::text::{
    contains,
    decimal,
    decimal_text,
    first_occurrence,
    lemma_first_occurrence,
    lemma_mismatch,
    lemma_occurrence_is_contained,
    occurs_at,
};

verus! {

/// The line of 80 equals signs that is drawn above and below a part's label.
pub open spec fn rule_line() -> Seq<char> {
    Seq::new(80, |i: int| '=')
}

/// The marker by which a document shows that it holds `part`: the label
/// "PART" and the part's number, between spaces.
pub open spec fn marker(part: int) -> Seq<char> {
    " PART "@ + decimal_text(part) + " "@
}

/// What stands in a document before the text of part 2 or 3: an empty line,
/// a rule, the part's marker on a line of its own, a rule, an empty line.
pub open spec fn separator(part: int) -> Seq<char> {
    "\n\n"@ + rule_line() + "\n"@ + marker(part) + "\n"@ + rule_line() + "\n\n"@
}

/// What stands before the text of `part`: nothing before part 1.
pub open spec fn leading_separator(part: int) -> Seq<char> {
    if part == 1 {
        Seq::empty()
    } else {
        separator(part)
    }
}

/// Writes the separator that stands before the text of `part`.
pub fn separator_text(part: i32) -> (r: String)
    ensures
        r@ == separator(part as int),
{
    let rule = "================================================================================";
    proof {
        reveal_strlit(
            "================================================================================",
        );
        assert(rule@ =~= rule_line());
    }
    let mut r = String::from_str("\n\n");
    r.append(rule);
    r.append("\n");
    r.append(" PART ");
    r.append(decimal(part as i64).as_str());
    r.append(" ");
    r.append("\n");
    r.append(rule);
    r.append("\n\n");
    assert(r@ =~= separator(part as int));
    r
}

/// The markers of parts 2 and 3, written out.
pub proof fn lemma_marker_text()
    ensures
        marker(2) == " PART 2 "@,
        marker(3) == " PART 3 "@,
        marker(2) == seq![' ', 'P', 'A', 'R', 'T', ' ', '2', ' '],
        marker(3) == seq![' ', 'P', 'A', 'R', 'T', ' ', '3', ' '],
{
    reveal_strlit(" PART ");
    reveal_strlit(" ");
    reveal_strlit(" PART 2 ");
    reveal_strlit(" PART 3 ");
    assert(decimal_text(2) =~= seq!['2']);
    assert(decimal_text(3) =~= seq!['3']);
    assert(marker(2) =~= seq![' ', 'P', 'A', 'R', 'T', ' ', '2', ' ']);
    assert(marker(3) =~= seq![' ', 'P', 'A', 'R', 'T', ' ', '3', ' ']);
    assert(" PART 2 "@ =~= seq![' ', 'P', 'A', 'R', 'T', ' ', '2', ' ']);
    assert(" PART 3 "@ =~= seq![' ', 'P', 'A', 'R', 'T', ' ', '3', ' ']);
}

/// The separator of part 2 or 3 is 174 characters long; the characters 83
/// to 90 are the part's marker, and all others are line breaks and equals
/// signs.
pub proof fn lemma_separator_shape(part: int)
    requires
        part == 2 || part == 3,
    ensures
        separator(part).len() == 174,
        separator(part).subrange(83, 91) == marker(part),
        forall|i: int|
            0 <= i < 174 && !(83 <= i < 91) ==> separator(part)[i] == '\n' || separator(part)[i]
                == '=',
{
    lemma_marker_text();
    reveal_strlit("\n\n");
    reveal_strlit("\n");
    let s = separator(part);
    let head = "\n\n"@ + rule_line() + "\n"@;
    let tail = "\n"@ + rule_line() + "\n\n"@;
    assert(s =~= head + marker(part) + tail);
    assert(head.len() == 83);
    assert(tail.len() == 83);
    assert(s.subrange(83, 91) =~= marker(part));
    assert forall|i: int| 0 <= i < 83 implies head[i] == '\n' || head[i] == '=' by {
        if i < 2 {
        } else if i < 82 {
            assert(head[i] == rule_line()[i - 2]);
        } else {
        }
    }
    assert forall|i: int| 0 <= i < 83 implies tail[i] == '\n' || tail[i] == '=' by {
        if i < 1 {
        } else if i < 81 {
            assert(tail[i] == rule_line()[i - 1]);
        } else {
        }
    }
    assert forall|i: int| 0 <= i < 174 && !(83 <= i < 91) implies s[i] == '\n' || s[i]
        == '=' by {
        if i < 83 {
            assert(s[i] == head[i]);
        } else {
            assert(s[i] == tail[i - 91]);
        }
    }
}

/// The marker of part 2 or 3 is eight characters long, none of them a line
/// break or an equals sign, and the seventh is the part's digit.
proof fn lemma_marker_chars(part: int)
    requires
        part == 2 || part == 3,
    ensures
        marker(part).len() == 8,
        marker(part)[6] == (if part == 2 {
            '2'
        } else {
            '3'
        }),
        forall|k: int| 0 <= k < 8 ==> marker(part)[k] != '\n' && marker(part)[k] != '=',
{
    lemma_marker_text();
}

/// The marker of one part does not stand at `at` in a text that holds the
/// separator of the other part, unless it stands there within the text
/// before the separator or within the text after it.
proof fn lemma_no_marker_across_separator(
    before: Seq<char>,
    part: int,
    after: Seq<char>,
    other: int,
    at: int,
)
    requires
        (part == 2 && other == 3) || (part == 3 && other == 2),
        0 <= at,
        at + 8 > before.len(),
        at < before.len() + 174,
    ensures
        !occurs_at(before + separator(part) + after, marker(other), at),
{
    let whole = before + separator(part) + after;
    let wanted = marker(other);
    let a = before.len() as int;
    lemma_marker_chars(other);
    lemma_marker_chars(part);
    lemma_separator_shape(part);
    if at + 8 <= whole.len() {
        // An index of the separator that the eight characters from `at` on
        // cover, and at which the marker cannot stand.
        let p = if at < a {
            a
        } else if at < a + 83 {
            at
        } else if at == a + 83 {
            a + 89
        } else if at <= a + 91 {
            a + 91
        } else {
            at
        };
        assert(a <= p < a + 174 && at <= p < at + 8);
        assert(whole[p] == separator(part)[p - a]);
        if p == a + 89 {
            assert(separator(part).subrange(83, 91)[6] == separator(part)[89]);
        }
        assert(whole[p] != wanted[p - at]);
        lemma_mismatch(whole, wanted, at, p - at);
    }
}

/// The separator of one part brings the marker of the other into no
/// document: where neither the text before it nor the text after it
/// contains that marker, the whole does not.
pub proof fn lemma_separator_keeps_other_marker_out(
    before: Seq<char>,
    part: int,
    after: Seq<char>,
    other: int,
)
    requires
        (part == 2 && other == 3) || (part == 3 && other == 2),
        !contains(before, marker(other)),
        !contains(after, marker(other)),
    ensures
        !contains(before + separator(part) + after, marker(other)),
{
    let whole = before + separator(part) + after;
    let wanted = marker(other);
    lemma_marker_chars(other);
    lemma_separator_shape(part);
    lemma_first_occurrence(whole, wanted, 0);
    if contains(whole, wanted) {
        let at = first_occurrence(whole, wanted, 0)->0;
        let a = before.len() as int;
        let b = a + 174;
        if at + 8 <= a {
            assert(before.subrange(at, at + 8) =~= whole.subrange(at, at + 8));
            lemma_occurrence_is_contained(before, wanted, at);
        } else if at >= b {
            assert(after.subrange(at - b, at - b + 8) =~= whole.subrange(at, at + 8));
            lemma_occurrence_is_contained(after, wanted, at - b);
        } else {
            lemma_no_marker_across_separator(before, part, after, other, at);
        }
    }
}

} // verus!
