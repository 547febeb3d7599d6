use ec_cli::display::part_examples;
use ec_cli::document::separator_text;
use ec_cli::models::Sample;
use ec_cli::parts::split_parts as cut;

fn head() -> String {
    format!("\n\n{}\n ", "=".repeat(80))
}

fn tail() -> String {
    format!(" \n{}\n\n", "=".repeat(80))
}

#[test]
fn separator_is_head_label_and_tail() {
    assert_eq!(separator_text(2), format!("{}PART 2{}", head(), tail()));
    assert_eq!(separator_text(3), format!("{}PART 3{}", head(), tail()));
}

#[test]
fn cutting_a_document_of_one_part() {
    let (part1, part2, part3) = cut("the only text");
    assert_eq!(part1, "the only text");
    assert_eq!(part2, "");
    assert_eq!(part3, "");
}

#[test]
fn cutting_a_document_of_two_parts() {
    let document = format!("first{}second", separator_text(2));
    let (part1, part2, part3) = cut(&document);
    assert_eq!(part1, format!("first{}", head()));
    assert_eq!(part2, format!("{}second", tail()));
    assert_eq!(part3, "");
}

#[test]
fn cutting_a_document_of_three_parts() {
    let document =
        format!("first{}second{}third", separator_text(2), separator_text(3));
    let (part1, part2, part3) = cut(&document);
    assert_eq!(part1, format!("first{}", head()));
    assert_eq!(part2, format!("{}second{}", tail(), head()));
    assert_eq!(part3, format!("{}third", tail()));
}

#[test]
fn cutting_a_document_whose_first_part_names_part_three() {
    let document =
        format!("see PART 3 below{}second{}third", separator_text(2), separator_text(3));
    let (part1, part2, part3) = cut(&document);
    assert_eq!(part1, format!("see PART 3 below{}", head()));
    assert_eq!(part2, format!("{}second{}", tail(), head()));
    assert_eq!(part3, format!("{}third", tail()));
}

#[test]
fn examples_of_an_assembled_document() {
    let document = format!(
        "<pre class=\"note\">one</pre>{}<pre class=\"note\">two</pre>{}<p>none</p>",
        separator_text(2),
        separator_text(3)
    );
    let found = part_examples(&document);
    assert_eq!(found.len(), 2);
    assert_eq!(found[0].sample, Sample { part_number: 1, content: "one".to_string() });
    assert_eq!(found[1].sample, Sample { part_number: 2, content: "two".to_string() });
    assert_eq!(found[0].expected_answer, None);
}
