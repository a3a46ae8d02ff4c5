use md_questions::parsers::{answer, new_line, question, question_header, text, to_int, Answer, Question};

#[test]
fn test_question_parser() {
    let input = "## Question 1\nSome text of the question\n\n";
    let expected = Question {
        number: 1,
        text: "Some text of the question".to_string(),
        answers: vec![],
        reading: None,
        category: String::new(),
    };
    assert_eq!(question(input, 0), Some((input.chars().count(), expected)));
}

#[test]
fn test_question_number_parser() {
    let input = "## Question 1";
    assert_eq!(question_header(input, 0), Some((13, 1)));
}

#[test]
fn test_new_line_parser() {
    assert_eq!(new_line("\n", 0), Some(1));
}

#[test]
fn test_text_parser() {
    assert_eq!(text("Some text here\n", 0), Some((14, "Some text here".to_string())));
}

#[test]
fn parsers_test_answer_parser() {
    assert_eq!(
        answer("[ ] Some answer\n", 0),
        Some((15, Answer { text: "Some answer".to_string(), is_correct: false }))
    );

    assert_eq!(
        answer("[x] Some answer\n", 0),
        Some((15, Answer { text: "Some answer".to_string(), is_correct: true }))
    );
}

#[test]
fn parsers_test_to_int() {
    assert_eq!(to_int("42"), Some(42));
    assert_eq!(to_int("x"), None);
}
