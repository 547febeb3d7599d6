//! What is shown to the reader: the samples and expected answers found in a
//! description, the description as plain text, and the report on a
//! submitted answer.

use vstd::prelude::*;
use vstd::string::StringExecFns;
use crate::models::{text_of, ExpectedAnswer, Sample, SubmitResponse};
use crate::parts::{part_one_text, part_three_text, part_two_text, split_parts};
use crate::text::{decimal, decimal_text, trim, trim_start, trimmed, trimmed_start};

verus! {

/// The pattern of a sample: what stands inside a `pre` element of class
/// `note`, up to the first closing tag, line breaks included.
pub open spec fn sample_pattern() -> Seq<char> {
    "(?s)<pre class=\"note\">(.*?)</pre>"@
}

/// The pattern of an expected answer: bold text that is all there is in a
/// `pre` element, whitespace aside.
pub open spec fn answer_pattern() -> Seq<char> {
    "<pre>\\s*<b>([^<]+)</b>\\s*</pre>"@
}

/// For each match of the regular expression `pattern` in `text`, from left
/// to right and without overlap, what its first group captured, if the
/// group took part in the match. Nothing at all where `pattern` is no
/// regular expression.
pub uninterp spec fn regex_first_groups(pattern: Seq<char>, text: Seq<char>) -> Option<
    Seq<Option<Seq<char>>>,
>;

/// The texts of captured groups.
pub open spec fn groups_view(groups: Seq<Option<String>>) -> Seq<Option<Seq<char>>> {
    Seq::new(groups.len(), |i: int| text_of(groups[i]))
}

/// The captured groups by their texts, where there are any.
pub open spec fn captures_view(groups: Option<Vec<Option<String>>>) -> Option<
    Seq<Option<Seq<char>>>,
> {
    match groups {
        Some(found) => Some(groups_view(found@)),
        None => None,
    }
}

/// Compiles `pattern` with `regex::Regex::new` and walks the matches in
/// `text` with `Regex::captures_iter`, keeping the first group of each.
/// Assumed: the result depends on the two strings alone.
#[verifier::external_body]
fn first_groups(pattern: &str, text: &str) -> (groups: Option<Vec<Option<String>>>)
    ensures
        captures_view(groups) == regex_first_groups(pattern@, text@),
{
    let re = match regex::Regex::new(pattern) {
        Ok(re) => re,
        Err(_) => return None,
    };
    let mut groups = Vec::new();
    for found in re.captures_iter(text) {
        groups.push(
            match found.get(1) {
                Some(group) => Some(group.as_str().to_string()),
                None => None,
            },
        );
    }
    Some(groups)
}

/// The texts of strings.
pub open spec fn texts(strings: Seq<String>) -> Seq<Seq<char>> {
    Seq::new(strings.len(), |i: int| strings[i]@)
}

/// The samples that captured groups hold: each group that took part,
/// without the whitespace it starts with, in the order of the matches.
pub open spec fn samples_of(groups: Seq<Option<Seq<char>>>) -> Seq<Seq<char>>
    decreases groups.len(),
{
    if groups.len() == 0 {
        Seq::empty()
    } else {
        let before = samples_of(groups.drop_last());
        match groups.last() {
            Some(text) => before.push(trimmed_start(text)),
            None => before,
        }
    }
}

/// The expected answer that captured groups hold: the last group that took
/// part, without the whitespace around it.
pub open spec fn answer_of(groups: Seq<Option<Seq<char>>>) -> Option<Seq<char>>
    decreases groups.len(),
{
    if groups.len() == 0 {
        None
    } else {
        match groups.last() {
            Some(text) => Some(trimmed(text)),
            None => answer_of(groups.drop_last()),
        }
    }
}

/// Of several marked answers only the last counts: the expected answer of
/// groups that end in one that took part is that group, trimmed, whatever
/// stands before it.
pub proof fn lemma_last_answer_counts(earlier: Seq<Option<Seq<char>>>, last: Seq<char>)
    ensures
        answer_of(earlier.push(Some(last))) == Some(trimmed(last)),
{
}

/// The samples come in the order of the matches: a match that follows adds
/// its sample behind those found before.
pub proof fn lemma_samples_in_order(earlier: Seq<Option<Seq<char>>>, next: Seq<char>)
    ensures
        samples_of(earlier.push(Some(next))) == samples_of(earlier).push(trimmed_start(next)),
{
    assert(earlier.push(Some(next)).drop_last() =~= earlier);
}

/// The samples in `html`, in the order of the document.
pub open spec fn samples(html: Seq<char>) -> Seq<Seq<char>> {
    match regex_first_groups(sample_pattern(), html) {
        Some(groups) => samples_of(groups),
        None => Seq::empty(),
    }
}

/// The expected answer in `html`: the last one marked.
pub open spec fn expected_answer(html: Seq<char>) -> Option<Seq<char>> {
    match regex_first_groups(answer_pattern(), html) {
        Some(groups) => answer_of(groups),
        None => None,
    }
}

/// Turns the groups captured by the sample pattern into samples.
pub fn samples_from_groups(groups: &Vec<Option<String>>) -> (found: Vec<String>)
    ensures
        texts(found@) == samples_of(groups_view(groups@)),
{
    let mut found: Vec<String> = Vec::new();
    let mut i: usize = 0;
    assert(texts(found@) =~= samples_of(groups_view(groups@).take(0)));
    while i < groups.len()
        invariant
            i <= groups@.len(),
            texts(found@) == samples_of(groups_view(groups@).take(i as int)),
        decreases groups@.len() - i,
    {
        let ghost before = found@;
        assert(groups_view(groups@).take(i + 1).drop_last() =~= groups_view(groups@).take(
            i as int,
        ));
        assert(groups_view(groups@).take(i + 1).last() == text_of(groups@[i as int]));
        match &groups[i] {
            Some(text) => {
                let sample = trim_start(text.as_str());
                found.push(sample);
                assert(texts(found@) =~= texts(before).push(sample@));
            },
            None => {},
        }
        i = i + 1;
    }
    assert(groups_view(groups@).take(i as int) =~= groups_view(groups@));
    found
}

/// Turns the groups captured by the answer pattern into the expected
/// answer.
pub fn answer_from_groups(groups: &Vec<Option<String>>) -> (answer: Option<String>)
    ensures
        text_of(answer) == answer_of(groups_view(groups@)),
{
    let mut end: usize = groups.len();
    assert(groups_view(groups@).take(end as int) =~= groups_view(groups@));
    while end > 0
        invariant
            end <= groups@.len(),
            answer_of(groups_view(groups@)) == answer_of(groups_view(groups@).take(end as int)),
        decreases end,
    {
        assert(groups_view(groups@).take(end as int).drop_last() =~= groups_view(groups@).take(
            end - 1,
        ));
        assert(groups_view(groups@).take(end as int).last() == text_of(groups@[end - 1]));
        match &groups[end - 1] {
            Some(text) => {
                return Some(trim(text.as_str()));
            },
            None => {},
        }
        end = end - 1;
    }
    None
}

/// Extracts the samples from an HTML description: the contents of the
/// `<pre class="note">` elements, in the order of the document.
pub fn extract_samples(html: &str) -> (found: Vec<String>)
    ensures
        texts(found@) == samples(html@),
{
    match first_groups("(?s)<pre class=\"note\">(.*?)</pre>", html) {
        Some(groups) => samples_from_groups(&groups),
        None => {
            let found = Vec::new();
            assert(texts(found@) =~= Seq::empty());
            found
        },
    }
}

/// Extracts the expected answer from an HTML description: the text of the
/// last `<pre> <b>..</b> </pre>` element.
pub fn extract_expected_answer(html: &str) -> (answer: Option<String>)
    ensures
        text_of(answer) == expected_answer(html@),
{
    match first_groups("<pre>\\s*<b>([^<]+)</b>\\s*</pre>", html) {
        Some(groups) => answer_from_groups(&groups),
        None => None,
    }
}

/// The worked example of one part of a description: its last sample, and
/// the expected answer where one is marked.
#[derive(Debug, Clone, PartialEq, Eq)]
pub struct PartExample {
    pub sample: Sample,
    pub expected_answer: Option<ExpectedAnswer>,
}

/// The last sample in the text of a part, if it holds one.
pub open spec fn last_sample_in(text: Seq<char>) -> Option<Seq<char>> {
    if samples(text).len() > 0 {
        Some(samples(text).last())
    } else {
        None
    }
}

/// Finds the last sample in the text of the part `part_number`.
pub fn last_sample(part_number: i32, part_text: &str) -> (found: Option<Sample>)
    ensures
        match found {
            Some(sample) => sample.part_number == part_number && last_sample_in(part_text@)
                == Some(sample.content@),
            None => last_sample_in(part_text@) is None,
        },
{
    let mut found = extract_samples(part_text);
    let ghost all = found@;
    match found.pop() {
        Some(content) => {
            assert(content@ == texts(all).last());
            Some(Sample { part_number, content })
        },
        None => {
            assert(texts(all).len() == 0);
            None
        },
    }
}

/// Finds the expected answer in the text of the part `part_number`.
pub fn last_expected_answer(part_number: i32, part_text: &str) -> (found: Option<ExpectedAnswer>)
    ensures
        match found {
            Some(answer) => answer.part_number == part_number && expected_answer(part_text@)
                == Some(answer.value@),
            None => expected_answer(part_text@) is None,
        },
{
    match extract_expected_answer(part_text) {
        Some(value) => Some(ExpectedAnswer { part_number, value }),
        None => None,
    }
}

/// An example by the numbers and texts it holds: the part and text of the
/// sample, and the part and text of the expected answer.
pub type ExampleView = (int, Seq<char>, Option<(int, Seq<char>)>);

impl View for PartExample {
    type V = ExampleView;

    open spec fn view(&self) -> ExampleView {
        (
            self.sample.part_number as int,
            self.sample.content@,
            match self.expected_answer {
                Some(answer) => Some((answer.part_number as int, answer.value@)),
                None => None,
            },
        )
    }
}

/// The worked example in the text of the part `part`: its last sample, with
/// the expected answer, where the text is not empty and holds a sample.
pub open spec fn example_in(part: int, text: Seq<char>) -> Option<ExampleView> {
    if text.len() > 0 && last_sample_in(text) is Some {
        Some(
            (
                part,
                last_sample_in(text)->0,
                match expected_answer(text) {
                    Some(value) => Some((part, value)),
                    None => None,
                },
            ),
        )
    } else {
        None
    }
}

/// Looks for the worked example in the text of `part`.
pub fn part_example(part: i32, text: &str) -> (found: Option<PartExample>)
    ensures
        match found {
            Some(example) => example_in(part as int, text@) == Some(example@),
            None => example_in(part as int, text@) is None,
        },
{
    if text.is_empty() {
        return None;
    }
    match last_sample(part, text) {
        Some(sample) => Some(
            PartExample { sample, expected_answer: last_expected_answer(part, text) },
        ),
        None => None,
    }
}

/// The example of one part as a sequence of at most one entry.
pub open spec fn example_entry(part: int, text: Seq<char>) -> Seq<ExampleView> {
    match example_in(part, text) {
        Some(example) => seq![example],
        None => Seq::empty(),
    }
}

/// The examples that `document` holds for parts 1, 2 and 3, in this order.
pub open spec fn examples_in(document: Seq<char>) -> Seq<ExampleView> {
    example_entry(1, part_one_text(document)) + example_entry(2, part_two_text(document))
        + example_entry(3, part_three_text(document))
}

/// Examples by the numbers and texts they hold.
pub open spec fn examples_view(examples: Seq<PartExample>) -> Seq<ExampleView> {
    Seq::new(examples.len(), |i: int| examples[i]@)
}

/// Finds the worked example of each part of an assembled document.
pub fn part_examples(document: &str) -> (found: Vec<PartExample>)
    ensures
        examples_view(found@) == examples_in(document@),
{
    let (part1, part2, part3) = split_parts(document);
    let mut found: Vec<PartExample> = Vec::new();
    assert(examples_view(found@) =~= Seq::empty());
    if let Some(example) = part_example(1, part1.as_str()) {
        found.push(example);
    }
    assert(examples_view(found@) =~= example_entry(1, part_one_text(document@)));
    let ghost first = found@;
    if let Some(example) = part_example(2, part2.as_str()) {
        found.push(example);
    }
    assert(examples_view(found@) =~= examples_view(first) + example_entry(
        2,
        part_two_text(document@),
    ));
    let ghost second = found@;
    if let Some(example) = part_example(3, part3.as_str()) {
        found.push(example);
    }
    assert(examples_view(found@) =~= examples_view(second) + example_entry(
        3,
        part_three_text(document@),
    ));
    found
}

/// What rendering `html` as plain text wrapped to `width` columns gives, or
/// nothing where it cannot be rendered.
pub uninterp spec fn rendered_html(html: Seq<char>, width: nat) -> Option<Seq<char>>;

/// Calls `html2text::from_read` on the bytes of `html`. Assumed: the result
/// depends on the text and the width alone.
#[verifier::external_body]
fn render_html(html: &str, width: usize) -> (rendered: Option<String>)
    ensures
        text_of(rendered) == rendered_html(html@, width as nat),
{
    match html2text::from_read(html.as_bytes(), width) {
        Ok(text) => Some(text),
        Err(_) => None,
    }
}

/// What is shown for a rendering: the text, or a notice where there is
/// none.
pub open spec fn shown_text(rendered: Option<Seq<char>>) -> Seq<char> {
    match rendered {
        Some(text) => text,
        None => "Error converting HTML to text"@,
    }
}

/// The text to show for a rendering that has or has not succeeded.
pub fn text_or_notice(rendered: Option<String>) -> (text: String)
    ensures
        text@ == shown_text(text_of(rendered)),
{
    match rendered {
        Some(text) => text,
        None => String::from_str("Error converting HTML to text"),
    }
}

/// Converts HTML to plain text for the terminal, wrapped to `width`
/// columns.
pub fn html_to_text(html: &str, width: usize) -> (text: String)
    ensures
        text@ == shown_text(rendered_html(html@, width as nat)),
{
    text_or_notice(render_html(html, width))
}

/// The lines that report a correct answer.
pub open spec fn correct_report(response: SubmitResponse) -> Seq<char> {
    "\u{2713} Correct!\n"@ + (if response.first_correct {
        "  \u{1F389} First to solve!\n"@
    } else {
        Seq::empty()
    }) + "  Global place: "@ + decimal_text(response.global_place as int) + "\n"@
        + "  Global score: "@ + decimal_text(response.global_score as int) + "\n"@ + "  Time: "@
        + decimal_text(response.time as int) + "ms\n"@
}

/// The lines that report a wrong answer.
pub open spec fn incorrect_report(response: SubmitResponse) -> Seq<char> {
    "\u{2717} Incorrect\n"@ + (if response.length_correct {
        "  (Answer length is correct)\n"@
    } else {
        Seq::empty()
    })
}

/// The line that passes on the service's message, if it sent one.
pub open spec fn message_line(response: SubmitResponse) -> Seq<char> {
    if response.message@.len() > 0 {
        "  Message: "@ + response.message@ + "\n"@
    } else {
        Seq::empty()
    }
}

/// The report on a submitted answer.
pub open spec fn submit_report(response: SubmitResponse) -> Seq<char> {
    (if response.correct {
        correct_report(response)
    } else {
        incorrect_report(response)
    }) + message_line(response)
}

/// Formats the service's verdict on a submitted answer for display.
pub fn format_submit_response(response: &SubmitResponse) -> (output: String)
    ensures
        output@ == submit_report(*response),
{
    let mut output = String::new();
    if response.correct {
        output.append("\u{2713} Correct!\n");
        if response.first_correct {
            output.append("  \u{1F389} First to solve!\n");
        }
        output.append("  Global place: ");
        output.append(decimal(response.global_place).as_str());
        output.append("\n");
        output.append("  Global score: ");
        output.append(decimal(response.global_score).as_str());
        output.append("\n");
        output.append("  Time: ");
        output.append(decimal(response.time).as_str());
        output.append("ms\n");
        assert(output@ =~= correct_report(*response));
    } else {
        output.append("\u{2717} Incorrect\n");
        if response.length_correct {
            output.append("  (Answer length is correct)\n");
        }
        assert(output@ =~= incorrect_report(*response));
    }
    if !response.message.as_str().is_empty() {
        output.append("  Message: ");
        output.append(response.message.as_str());
        output.append("\n");
    }
    assert(output@ =~= submit_report(*response));
    output
}

} // verus!
