use chat_cli::editor::{Key, KeyCode};
use chat_cli::screen::Draw;
use chat_cli::session::{Mode, Session, Step};

fn key(code: KeyCode) -> Key {
    Key { code, ctrl: false }
}

fn ctrl(c: char) -> Key {
    Key { code: KeyCode::Char(c), ctrl: true }
}

fn type_text(s: &mut Session, text: &str) {
    for c in text.chars() {
        s.handle(key(KeyCode::Char(c)));
    }
}

fn logged_in() -> Session {
    let mut s = Session::new(80, 24, "hostid".to_string()).unwrap();
    type_text(&mut s, "bob");
    s.handle(key(KeyCode::Enter));
    s
}

#[test]
fn session_needs_room() {
    assert!(Session::new(80, 3, "h".to_string()).is_none());
    assert!(Session::new(2, 24, "h".to_string()).is_none());
}

#[test]
fn opening_shows_username_prompt() {
    let s = Session::new(6, 10, "h".to_string()).unwrap();
    assert_eq!(
        s.opening(),
        vec![
            Draw::ClearAll,
            Draw::Print("+---+\n".to_string()),
            Draw::Print("|   |\n".to_string()),
            Draw::MoveTo(1, 8),
            Draw::Print("Enter your username: ".to_string()),
        ]
    );
}

#[test]
fn username_enter_adds_user_and_shows_name() {
    let mut s = Session::new(80, 24, "hostid".to_string()).unwrap();
    type_text(&mut s, "bobx");
    let step = s.handle(key(KeyCode::Backspace));
    assert_eq!(step.draws[2], Draw::Print("Enter your username: bob".to_string()));
    let step = s.handle(key(KeyCode::Enter));
    assert!(!step.quit);
    assert_eq!(
        step.draws,
        vec![
            Draw::MoveTo(0, 23),
            Draw::ClearLine,
            Draw::MoveTo(50, 0),
            Draw::Print("Username: bob".to_string()),
        ]
    );
    assert_eq!(s.mode(), Mode::Main);
    assert_eq!(s.registry().len(), 1);
    let u = chat_cli::registry::get_user_by_id(s.registry(), "hostid").unwrap();
    assert_eq!(u.name, "bob");
}

#[test]
fn hello_then_lookup_scenario() {
    let mut s = logged_in();
    type_text(&mut s, "hello");
    let step = s.handle(key(KeyCode::Enter));
    assert_eq!(
        step.draws,
        vec![
            Draw::MoveTo(1, 1),
            Draw::Print("hello".to_string()),
            Draw::MoveTo(1, 22),
            Draw::ClearLine,
        ]
    );
    assert_eq!(s.message(), "");
    assert_eq!(s.registry().len(), 1);

    let step = s.handle(ctrl('w'));
    assert_eq!(
        step.draws,
        vec![Draw::ClearLine, Draw::MoveTo(1, 22), Draw::Print("What ID? ".to_string())]
    );
    assert_eq!(s.mode(), Mode::Lookup);
    type_text(&mut s, "42");
    assert_eq!(s.lookup_text(), "42");
    let step = s.handle(key(KeyCode::Enter));
    assert_eq!(
        step.draws,
        vec![Draw::MoveTo(0, 23), Draw::ClearLine, Draw::Print("You entered ID: 42".to_string())]
    );
    assert_eq!(s.mode(), Mode::Main);
    assert_eq!(s.message(), "");
    assert_eq!(s.registry().len(), 1);
}

#[test]
fn lookup_keeps_the_message_being_typed() {
    let mut s = logged_in();
    type_text(&mut s, "hel");
    s.handle(ctrl('w'));
    type_text(&mut s, "7");
    s.handle(key(KeyCode::Backspace));
    type_text(&mut s, "9");
    assert_eq!(s.message(), "hel");
    s.handle(key(KeyCode::Enter));
    assert_eq!(s.message(), "hel");
    type_text(&mut s, "lo");
    assert_eq!(s.message(), "hello");
}

#[test]
fn control_q_and_m_quit() {
    let mut s = logged_in();
    let step: Step = s.handle(ctrl('q'));
    assert!(step.quit);
    assert!(step.draws.is_empty());
    let step = s.handle(ctrl('m'));
    assert!(step.quit);
    let step = s.handle(key(KeyCode::Char('q')));
    assert!(!step.quit);
    assert_eq!(s.message(), "q");
}

#[test]
fn narrow_screen_shows_name_at_left_edge() {
    let mut s = Session::new(20, 10, "h".to_string()).unwrap();
    type_text(&mut s, "al");
    let step = s.handle(key(KeyCode::Enter));
    assert_eq!(step.draws[2], Draw::MoveTo(0, 0));
}
