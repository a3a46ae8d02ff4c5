use md_questions::parser::questions;
use md_questions::{ClosedAnswer, ClosedQuestion, MdQuestions, OpenAnswer, OpenQuestion, Question};

#[test]
fn test_basic_closed_question() {
    let input = "## Question 1 `Cat`\n\
        Q text\n\
        \n\
        ## Answers\n\
        - [ ] A\n\
        - [X] B\n\
        \n\
        ---\n\
        \n";
    let bank = MdQuestions::from(input).expect("the bank should parse");
    assert_eq!(bank.count(), 1);
    assert!(!bank.is_empty());
    let expected = Question::Closed(ClosedQuestion {
        number: 1,
        text: "Q text".to_string(),
        answers: vec![ClosedAnswer::incorrect("A"), ClosedAnswer::correct("B")],
        reading: None,
        category: "Cat".to_string(),
    });
    assert_eq!(bank.get(0), Some(&expected));
    assert_eq!(bank.get(1), None);
}

#[test]
fn test_ignored_block_produces_no_question() {
    let input = "## Question 1 `Cat` `ignore`\n\
        Skipped text\n\
        \n\
        ## Answers\n\
        - [X] Skipped answer\n\
        \n\
        ---\n\
        \n\
        ## Question 2 `Cat`\n\
        Q text\n\
        \n\
        ## Answers\n\
        - [X] B\n\
        \n\
        ---\n\
        \n";
    let bank = MdQuestions::from(input).expect("the bank should parse");
    assert_eq!(bank.count(), 1);
    let Some(Question::Closed(q)) = bank.get(0) else {
        panic!("the kept question should be closed");
    };
    assert_eq!(*q.number(), 2);
}

#[test]
fn test_ignore_marker_is_case_insensitive() {
    let input = "## Question 1 `Cat` `Ignore`\n\
        Skipped text\n\
        \n\
        ---\n\
        \n\
        ## Question 2 `Cat`\n\
        Q text\n\
        \n\
        ## Answers\n\
        - [X] B\n\
        \n\
        ---\n\
        \n";
    let bank = MdQuestions::from(input).expect("the bank should parse");
    assert_eq!(bank.count(), 1);
}

#[test]
fn test_non_ignore_marker_is_accepted() {
    let input = "## Question 1 `Cat` `Draft`\n\
        Q text\n\
        \n\
        ## Answers\n\
        - [X] B\n\
        \n\
        ---\n\
        \n";
    let bank = MdQuestions::from(input).expect("the bank should parse");
    assert_eq!(bank.count(), 1);
    let Some(Question::Closed(q)) = bank.get(0) else {
        panic!("the question should be closed");
    };
    assert_eq!(*q.number(), 1);
    assert_eq!(q.category(), "Cat");
}

#[test]
fn test_reading_link_present() {
    let input = "## Question 1 `Cat`\n\
        Q text\n\
        \n\
        ## Answers\n\
        - [X] B\n\
        \n\
        ## [Reading](docs/x.md)\n\
        \n\
        ---\n\
        \n";
    let bank = MdQuestions::from(input).expect("the bank should parse");
    let Some(Question::Closed(q)) = bank.get(0) else {
        panic!("the question should be closed");
    };
    assert_eq!(q.reading(), &Some("docs/x.md".to_string()));
}

#[test]
fn test_missing_horizontal_rule_fails_whole_bank() {
    let input = "## Question 1 `Cat`\n\
        Q text\n\
        \n\
        ## Answers\n\
        - [ ] A\n\
        - [X] B\n\
        \n\
        \n";
    assert_eq!(questions(input), None);
    assert_eq!(MdQuestions::from(input), None);
}

#[test]
fn test_trailing_content_fails_the_bank_but_not_the_parser() {
    let block = "## Question 1 `Cat`\n\
        Q text\n\
        \n\
        ## Answers\n\
        - [X] B\n\
        \n\
        ---\n\
        \n";
    let input = format!("{}stray text", block);
    assert_eq!(MdQuestions::from(&input), None);
    let (pos, bank) = questions(&input).expect("the leading block should parse");
    assert_eq!(pos, block.chars().count());
    assert_eq!(bank.count(), 1);
}

#[test]
fn test_empty_input_fails() {
    assert_eq!(MdQuestions::from(""), None);
}

#[test]
fn test_open_question_round_trip() {
    let input = "## Question 3 `Graphs`\n\
        Enumerate common types of graphs\n\
        \n\
        ## Answer\n\
        1. Undirected Graph\n\
        2. Directed Graph (Digraph)\n\
        \n\
        ---\n\
        \n";
    let bank = MdQuestions::from(input).expect("the bank should parse");
    assert_eq!(bank.count(), 1);
    let expected = Question::Open(OpenQuestion {
        number: 3,
        text: "Enumerate common types of graphs".to_string(),
        answer: OpenAnswer::new("1. Undirected Graph\n2. Directed Graph (Digraph)"),
        reading: None,
        category: "Graphs".to_string(),
    });
    assert_eq!(bank.get(0), Some(&expected));
}

#[test]
fn test_directive_forces_open_shape() {
    let input = "[//]: # (type: open)\n\
        \n\
        ## Question 1 `Cat`\n\
        Q text\n\
        \n\
        ## Answer\n\
        Free text\n\
        \n\
        ---\n\
        \n";
    let bank = MdQuestions::from(input).expect("the bank should parse");
    assert_eq!(bank.count(), 1);
    let q = bank.get(0).unwrap().clone();
    assert!(!q.is_closed());
}

#[test]
fn test_directive_forces_closed_shape() {
    let input = "[//]: # (type: closed)\n\
        \n\
        ## Question 1 `Cat`\n\
        Q text\n\
        \n\
        ## Answers\n\
        - [X] B\n\
        \n\
        ---\n\
        \n";
    let bank = MdQuestions::from(input).expect("the bank should parse");
    let q = bank.get(0).unwrap();
    assert!(q.is_closed());
}

#[test]
fn test_unrecognized_directive_is_fatal() {
    let input = "[//]: # (kind: closed)\n\
        \n\
        ## Question 1 `Cat`\n\
        Q text\n\
        \n\
        ## Answers\n\
        - [X] B\n\
        \n\
        ---\n\
        \n";
    assert_eq!(MdQuestions::from(input), None);
}

#[test]
fn test_forced_closed_shape_rejects_open_body() {
    let input = "[//]: # (type: closed)\n\
        \n\
        ## Question 1 `Cat`\n\
        Q text\n\
        \n\
        ## Answer\n\
        Free text\n\
        \n\
        ---\n\
        \n";
    assert_eq!(MdQuestions::from(input), None);
}

#[test]
fn test_is_multi_with_two_correct_answers() {
    let q = ClosedQuestion {
        number: 1,
        text: "Q".to_string(),
        answers: vec![
            ClosedAnswer::correct("A"),
            ClosedAnswer::incorrect("B"),
            ClosedAnswer::correct("C"),
        ],
        reading: None,
        category: String::new(),
    };
    assert!(q.is_multi());
}

#[test]
fn test_is_multi_with_one_correct_answer() {
    let q = ClosedQuestion {
        number: 1,
        text: "Q".to_string(),
        answers: vec![ClosedAnswer::correct("A"), ClosedAnswer::incorrect("B")],
        reading: None,
        category: String::new(),
    };
    assert!(!q.is_multi());
}

#[test]
fn test_is_multi_with_no_correct_answer() {
    let q = ClosedQuestion {
        number: 1,
        text: "Q".to_string(),
        answers: vec![ClosedAnswer::incorrect("A")],
        reading: None,
        category: String::new(),
    };
    assert!(!q.is_multi());
}

#[test]
fn test_answer_model_accessors() {
    let a = ClosedAnswer::new("Some answer", true);
    assert_eq!(a.text(), "Some answer");
    assert!(a.is_correct());
    let q = ClosedQuestion {
        number: 9,
        text: "Q".to_string(),
        answers: vec![a, ClosedAnswer::incorrect("Other")],
        reading: None,
        category: "Cat".to_string(),
    };
    assert_eq!(q.answers_count(), 2);
    assert_eq!(q.answer(0), Some(&ClosedAnswer::correct("Some answer")));
    assert_eq!(q.answer(2), None);
    assert_eq!(q.answers().len(), 2);
    assert_eq!(*q.number(), 9);
    assert_eq!(q.text(), "Q");
    assert_eq!(q.category(), "Cat");
    assert_eq!(q.reading(), &None);
}

#[test]
fn test_question_shape_accessors() {
    let open = OpenQuestion {
        number: 2,
        text: "Q".to_string(),
        answer: OpenAnswer::new("A"),
        reading: None,
        category: String::new(),
    };
    let q = Question::from_open(open.clone());
    assert!(!q.is_closed());
    assert_eq!(q.as_closed(), None);
    assert_eq!(q.clone().as_open(), Some(open));
    assert_eq!(open_answer_text(&q), "A");

    let closed = ClosedQuestion {
        number: 3,
        text: "Q".to_string(),
        answers: vec![ClosedAnswer::correct("A")],
        reading: None,
        category: String::new(),
    };
    let q = Question::from_closed(closed.clone());
    assert!(q.is_closed());
    assert_eq!(q.as_closed(), Some(closed));
    assert_eq!(q.as_open(), None);
}

fn open_answer_text(q: &Question) -> String {
    match q.clone().as_open() {
        Some(o) => o.answer().text().clone(),
        None => String::new(),
    }
}
