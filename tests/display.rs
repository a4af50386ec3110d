use chat_cli::display::DisplayRegion;
use chat_cli::screen::Draw;

#[test]
fn region_needs_room() {
    assert!(DisplayRegion::new(2, 24).is_none());
    assert!(DisplayRegion::new(80, 3).is_none());
    let r = DisplayRegion::new(3, 4).unwrap();
    assert_eq!(r.input_line(), 2);
    assert_eq!(r.cursor_line(), 0);
}

#[test]
fn opening_draws_box_top() {
    let r = DisplayRegion::new(6, 10).unwrap();
    assert_eq!(
        r.opening(),
        vec![Draw::ClearAll, Draw::Print("+---+\n".to_string()), Draw::Print("|   |\n".to_string())]
    );
}

#[test]
fn commit_writes_one_line_below_the_last() {
    let mut r = DisplayRegion::new(80, 24).unwrap();
    let ops = r.commit_line(&"hello".to_string());
    assert_eq!(
        ops,
        vec![
            Draw::MoveTo(1, 1),
            Draw::Print("hello".to_string()),
            Draw::MoveTo(1, 22),
            Draw::ClearLine,
        ]
    );
    assert_eq!(r.cursor_line(), 1);
    let ops = r.commit_line(&"again".to_string());
    assert_eq!(ops[0], Draw::MoveTo(1, 2));
    assert_eq!(ops.iter().filter(|d| **d == Draw::Print("again".to_string())).count(), 1);
}

#[test]
fn full_region_wraps_to_the_top() {
    let mut r = DisplayRegion::new(6, 10).unwrap();
    // input line 8: rows 1 to 6 take messages before the region is full
    for i in 0..6u16 {
        let ops = r.commit_line(&format!("m{}", i));
        assert_eq!(ops.len(), 4);
        assert_eq!(r.cursor_line(), i + 1);
    }
    let ops = r.commit_line(&"wrap".to_string());
    assert_eq!(r.cursor_line(), 0);
    assert_eq!(
        ops,
        vec![
            Draw::ClearAll,
            Draw::MoveTo(0, 0),
            Draw::Print("+----+\n".to_string()),
            Draw::Print("|    |\n".to_string()),
            Draw::Print("+----+\n".to_string()),
            Draw::MoveTo(1, 0),
            Draw::Print("wrap".to_string()),
            Draw::MoveTo(1, 8),
            Draw::ClearLine,
        ]
    );
    r.commit_line(&"next".to_string());
    assert_eq!(r.cursor_line(), 1);
}
