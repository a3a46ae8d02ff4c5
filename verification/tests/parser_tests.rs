use md_questions::parser::{
    answer_checkbox, answers_header, closed_answer, closed_answers, empty_line, horizontal_rule,
    marker, number_and_category, paragraph, question, question_header, questions, reading_header,
    to_int,
};
use md_questions::{ClosedAnswer, ClosedQuestion, MdQuestions, OpenAnswer, OpenQuestion, Question};

fn chars(s: &str) -> usize {
    s.chars().count()
}

#[test]
fn test_questions_parser() {
    let input = "## Question 1 `Category 1`\n\
        Question 1 text\n\
        \n\
        ## Answers\n\
        - [ ] Answer 1\n\
        - [ ] Answer 2\n\
        - [ ] Answer 3\n\
        - [X] Answer 4\n\
        \n\
        ---\n\
        \n\
        ## Question 2 `Category 2`\n\
        Question 2 text\n\
        \n\
        ## Answers\n\
        - [X] Answer 1\n\
        - [ ] Answer 2\n\
        - [ ] Answer 3\n\
        - [ ] Answer 4\n\
        - [X] Answer 5\n\
        \n\
        ---\n\
        \n\
        ## Question 3 `Category 3`\n\
        Question 3 text\n\
        \n\
        ## Answers\n\
        - [ ] Answer 1\n\
        - [X] Answer 2\n\
        - [ ] Answer 3\n\
        - [ ] Answer 4\n\
        \n\
        ## [Reading](Reading 3)\n\
        \n\
        ---\n\
        \n";
    let expected = MdQuestions::new(vec![
        Question::Closed(ClosedQuestion {
            number: 1,
            text: "Question 1 text".to_string(),
            answers: vec![
                ClosedAnswer::incorrect("Answer 1"),
                ClosedAnswer::incorrect("Answer 2"),
                ClosedAnswer::incorrect("Answer 3"),
                ClosedAnswer::correct("Answer 4"),
            ],
            reading: None,
            category: "Category 1".to_string(),
        }),
        Question::Closed(ClosedQuestion {
            number: 2,
            text: "Question 2 text".to_string(),
            answers: vec![
                ClosedAnswer::correct("Answer 1"),
                ClosedAnswer::incorrect("Answer 2"),
                ClosedAnswer::incorrect("Answer 3"),
                ClosedAnswer::incorrect("Answer 4"),
                ClosedAnswer::correct("Answer 5"),
            ],
            reading: None,
            category: "Category 2".to_string(),
        }),
        Question::Closed(ClosedQuestion {
            number: 3,
            text: "Question 3 text".to_string(),
            answers: vec![
                ClosedAnswer::incorrect("Answer 1"),
                ClosedAnswer::correct("Answer 2"),
                ClosedAnswer::incorrect("Answer 3"),
                ClosedAnswer::incorrect("Answer 4"),
            ],
            reading: Some("Reading 3".to_string()),
            category: "Category 3".to_string(),
        }),
    ]);
    assert_eq!(questions(input), Some((chars(input), expected)));
}

#[test]
fn test_question_parser_with_closed_question() {
    let input = "## Question 1 `Category 1`\n\
        Question 1 text\n\
        \n\
        ## Answers\n\
        - [ ] Answer 1\n\
        - [ ] Answer 2\n\
        - [ ] Answer 3\n\
        - [X] Answer 4\n\
        \n\
        ## [Reading](Reading 1)\n\
        \n\
        ---\n\
        \n";
    let expected = Question::Closed(ClosedQuestion {
        number: 1,
        text: "Question 1 text".to_string(),
        answers: vec![
            ClosedAnswer::incorrect("Answer 1"),
            ClosedAnswer::incorrect("Answer 2"),
            ClosedAnswer::incorrect("Answer 3"),
            ClosedAnswer::correct("Answer 4"),
        ],
        reading: Some("Reading 1".to_string()),
        category: "Category 1".to_string(),
    });
    assert_eq!(question(input, 0), Some((chars(input), expected)));
}

#[test]
fn test_question_parser_with_open_question() {
    let input = "## Question 1 `Category 1`\n\
        Question 1 text\n\
        \n\
        ## Answer\n\
        Answer\n\
        \n\
        ## [Reading](Reading 1)\n\
        \n\
        ---\n\
        \n";
    let expected = Question::Open(OpenQuestion {
        number: 1,
        text: "Question 1 text".to_string(),
        answer: OpenAnswer::new("Answer"),
        reading: Some("Reading 1".to_string()),
        category: "Category 1".to_string(),
    });
    assert_eq!(question(input, 0), Some((chars(input), expected)));
}

#[test]
fn test_question_header_parser_with_correct_input() {
    let input = "## Question 1 `Templates and Components`";
    assert_eq!(
        question_header(input, 0),
        Some((chars(input), 1, "Templates and Components".to_string()))
    );
}

#[test]
fn test_question_header_parser_with_ignored_question() {
    assert_eq!(question_header("## Question 1 `OSGi Services` `Ignore`", 0), None);
}

#[test]
fn test_number_and_category_parser_with_correct_input() {
    let input = "## Question 1 `OSGi Services`";
    assert_eq!(
        number_and_category(input, 0),
        Some((chars(input), 1, "OSGi Services".to_string()))
    );
}

#[test]
fn test_number_and_category_parser_without_number() {
    assert_eq!(number_and_category("## Question `OSGi Services`", 0), None);
}

#[test]
fn test_number_and_category_parser_without_category() {
    assert_eq!(number_and_category("## Question 1", 0), None);
}

#[test]
fn test_number_and_category_parser_with_empty_category() {
    let input = "## Question 1 ``";
    assert_eq!(number_and_category(input, 0), Some((chars(input), 1, String::new())));
}

#[test]
fn test_number_and_category_parser_with_max_number() {
    let input = "## Question 4294967295 `Category`";
    assert_eq!(
        number_and_category(input, 0),
        Some((chars(input), 4_294_967_295, "Category".to_string()))
    );
}

#[test]
fn test_number_and_category_parser_with_too_big_number() {
    assert_eq!(number_and_category("## Question 4294967296``", 0), None);
}

#[test]
fn test_marker_parser_with_correct_input() {
    assert_eq!(marker(" `Ignored`", 0), Some((10, "Ignored".to_string())));
}

#[test]
fn test_marker_parser_with_not_opened_marker() {
    assert_eq!(marker(" Ignored`", 0), None);
}

#[test]
fn test_marker_parser_without_space_in_front() {
    assert_eq!(marker("`Ignored`", 0), None);
}

#[test]
fn test_marker_parser_with_not_closed_marker() {
    assert_eq!(marker(" `Ignored", 0), None);
}

#[test]
fn test_space_between_parser() {
    assert_eq!(empty_line("\n\n", 0), Some((2, "\n\n".to_string())));
}

#[test]
fn test_space_between_parser_with_text_between_new_lines() {
    assert_eq!(empty_line("\nsome text\n", 0), None);
}

#[test]
fn test_line_parser() {
    assert_eq!(
        md_questions::parser::line("Some text here\n", 0),
        Some((14, "Some text here".to_string()))
    );
}

#[test]
fn test_paragraph_parser() {
    let input = "First line\nsecond line\n\nrest";
    assert_eq!(paragraph(input, 0), Some((22, "First line\nsecond line".to_string())));
}

#[test]
fn parser_test_answer_parser() {
    assert_eq!(
        closed_answer("- [ ] Some answer\n", 0),
        Some((18, ClosedAnswer::incorrect("Some answer")))
    );
    assert_eq!(
        closed_answer("- [X] Some answer\n", 0),
        Some((18, ClosedAnswer::correct("Some answer")))
    );
}

#[test]
fn test_answer_parser_with_lowercase_marker() {
    assert_eq!(
        closed_answer("- [x] Some answer\n", 0),
        Some((18, ClosedAnswer::correct("Some answer")))
    );
}

#[test]
fn test_answers_header_parser() {
    assert_eq!(answers_header("## Answers\n", 0), Some(10));
}

#[test]
fn test_answer_checkbox() {
    assert_eq!(answer_checkbox("- [ ] ", 0), Some((6, false)));
    assert_eq!(answer_checkbox("- [X] ", 0), Some((6, true)));
}

#[test]
fn test_answers_parser_with_many_answers() {
    let input = "- [ ] Use and configure the teaser core component.\n\
        - [ ] Create a new custom component from scratch.\n\
        - [ ] Overlay the teaser core component.\n\
        - [X] Inherit from the teaser core component.\n";
    let expected = vec![
        ClosedAnswer::incorrect("Use and configure the teaser core component."),
        ClosedAnswer::incorrect("Create a new custom component from scratch."),
        ClosedAnswer::incorrect("Overlay the teaser core component."),
        ClosedAnswer::correct("Inherit from the teaser core component."),
    ];
    assert_eq!(closed_answers(input, 0), Some((chars(input), expected)));
}

#[test]
fn test_answers_parser_with_one_answer() {
    let input = "- [X] Use and configure the teaser core component.\n";
    let expected = vec![ClosedAnswer::correct("Use and configure the teaser core component.")];
    assert_eq!(closed_answers(input, 0), Some((chars(input), expected)));
}

#[test]
fn test_reading_header_parser_with_correct_input() {
    let input = "## [Reading](reading/question-3-reading.md)\n";
    assert_eq!(
        reading_header(input, 0),
        Some((chars(input) - 1, "reading/question-3-reading.md".to_string()))
    );
}

#[test]
fn test_reading_header_parser_with_url_not_closed() {
    assert_eq!(reading_header("## [Reading](reading/question-3-reading.md\n", 0), None);
}

#[test]
fn test_reading_header_parser_with_url_not_opened() {
    assert_eq!(reading_header("## [Reading]reading/question-3-reading.md)\n", 0), None);
}

#[test]
fn test_reading_header_parser_with_label_not_opened() {
    assert_eq!(reading_header("## Reading](reading/question-3-reading.md)\n", 0), None);
}

#[test]
fn test_reading_header_parser_with_label_not_closed() {
    assert_eq!(reading_header("## [Reading(reading/question-3-reading.md)\n", 0), None);
}

#[test]
fn test_reading_header_parser_with_broken_reading_header() {
    let res = reading_header("## [Reading-broken](reading/question-3-reading.md)\n", 0);
    assert!(res.is_none());

    let res = reading_header("## [Reading-broken](reading/question-3-reading.md)\n", 0);
    assert!(res.is_none());
}

#[test]
fn test_reading_header_parser_with_empty_url() {
    assert_eq!(reading_header("## [Reading]()\n", 0), Some((14, String::new())));
}

#[test]
fn test_horizontal_rule_parser() {
    assert_eq!(horizontal_rule("---\n", 0), Some(3));
}

#[test]
fn test_to_int_parser() {
    assert_eq!(to_int("123"), Some(123));
    assert_eq!(to_int("4294967295"), Some(4_294_967_295));
    assert_eq!(to_int("4294967296"), None);
    assert_eq!(to_int("12a"), None);
    assert_eq!(to_int(""), None);
}

#[test]
fn test_question_header_parses_identically_twice() {
    let input = "## Question 7 `Graphs`";
    let first = question_header(input, 0);
    let second = question_header(input, 0);
    assert_eq!(first, Some((chars(input), 7, "Graphs".to_string())));
    assert_eq!(first, second);
}
