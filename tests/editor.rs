use chat_cli::editor::{Edit, KeyCode, LineEditor};
use chat_cli::screen::Draw;

#[test]
fn typing_then_erasing_empties_the_buffer() {
    let mut e = LineEditor::new(String::new(), 5);
    for c in "héllo".chars() {
        e.handle(KeyCode::Char(c));
    }
    assert_eq!(e.text(), "héllo");
    for _ in 0..5 {
        e.handle(KeyCode::Backspace);
    }
    assert_eq!(e.text(), "");
}

#[test]
fn insert_prints_the_character() {
    let mut e = LineEditor::new("> ".to_string(), 3);
    assert_eq!(e.insert('x'), vec![Draw::Print("x".to_string())]);
    assert_eq!(e.text(), "x");
}

#[test]
fn erase_redraws_prompt_and_text() {
    let mut e = LineEditor::new("What ID? ".to_string(), 7);
    e.insert('4');
    e.insert('2');
    let ops = e.erase();
    assert_eq!(
        ops,
        vec![
            Draw::MoveTo(1, 7),
            Draw::ClearLine,
            Draw::Print("What ID? 4".to_string()),
            Draw::MoveTo(11, 7),
        ]
    );
    assert_eq!(e.text(), "4");
}

#[test]
fn erase_on_empty_does_nothing() {
    let mut e = LineEditor::new(String::new(), 2);
    assert!(e.erase().is_empty());
    assert_eq!(e.text(), "");
}

#[test]
fn enter_commits_and_empties() {
    let mut e = LineEditor::new(String::new(), 2);
    e.handle(KeyCode::Char('h'));
    e.handle(KeyCode::Char('i'));
    match e.handle(KeyCode::Enter) {
        Edit::Committed(s) => assert_eq!(s, "hi"),
        Edit::Drawn(_) => panic!("expected a commit"),
    }
    assert_eq!(e.text(), "");
    match e.handle(KeyCode::Other) {
        Edit::Drawn(ops) => assert!(ops.is_empty()),
        Edit::Committed(_) => panic!("expected no commit"),
    }
}
