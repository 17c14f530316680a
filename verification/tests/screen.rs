use megumish::{cycle, render, Context, Draw, Key, StatusBar, Window};

#[test]
fn status_bar_is_one_blank_line() {
    assert_eq!(StatusBar::new().draw(), Draw::Line(String::new()));
}

#[test]
fn frame_has_four_steps_in_order() {
    let mut context = Context::new();
    context.update(Key::Char('x'));
    let steps = render(&context, (24, 80));
    assert_eq!(steps.len(), 4);
    assert_eq!(steps[0], Draw::Clear);
    assert!(matches!(steps[1], Draw::Text(_)));
    assert_eq!(steps[2], Draw::Line(String::new()));
    assert_eq!(steps[3], Draw::Text(String::from("x")));
}

#[test]
fn frame_shows_the_line_as_it_stands() {
    let mut context = Context::new();
    context.update(Key::Char('a'));
    context.update(Key::Char('b'));
    context.update(Key::Backspace);
    let steps = render(&context, (2, 2));
    assert_eq!(steps[3], Draw::Text(String::from("a")));
    context.update(Key::Enter);
    let steps = render(&context, (2, 2));
    assert_eq!(steps[3], Draw::Text(String::new()));
}

#[test]
fn window_holds_one_marker_per_row() {
    for rows in [0usize, 1, 2, 24, 100] {
        let window = Window::new(rows);
        assert_eq!(window.content().matches("~\n").count(), rows);
    }
}

#[test]
fn window_follows_the_rows_not_the_columns() {
    let steps = render(&Context::new(), (5, 132));
    match &steps[1] {
        Draw::Text(text) => assert_eq!(text.matches('~').count(), 5),
        other => panic!("the second step is {:?}", other),
    }
}

#[test]
fn context_keeps_its_terminal() {
    let mut context = Context::new();
    context.update(Key::Char('x'));
    let _ = context.term();
    assert_eq!(context.command_bar().input_string(), "x");
}

#[test]
fn cycle_updates_then_paints() {
    let mut context = Context::new();
    let steps = cycle(&mut context, Key::Char('h'), (24, 80));
    assert_eq!(context.command_bar().input_string(), "h");
    assert_eq!(steps.len(), 4);
    assert_eq!(steps[0], Draw::Clear);
    assert_eq!(steps[2], Draw::Line(String::new()));
    assert_eq!(steps[3], Draw::Text(String::from("h")));
    let steps = cycle(&mut context, Key::Char('i'), (24, 80));
    assert_eq!(steps[3], Draw::Text(String::from("hi")));
    let steps = cycle(&mut context, Key::Other, (24, 80));
    assert_eq!(steps[3], Draw::Text(String::from("hi")));
    let steps = cycle(&mut context, Key::Backspace, (24, 80));
    assert_eq!(steps[3], Draw::Text(String::from("h")));
    let steps = cycle(&mut context, Key::Enter, (24, 80));
    assert_eq!(steps[3], Draw::Text(String::new()));
    let steps = cycle(&mut context, Key::Backspace, (24, 80));
    assert_eq!(steps[3], Draw::Text(String::new()));
    assert_eq!(context.command_bar().input_string(), "");
}

#[test]
fn cycle_paints_a_window_of_the_current_size() {
    let mut context = Context::new();
    for rows in [24u16, 10, 0, 50] {
        let steps = cycle(&mut context, Key::Other, (rows, 80));
        match &steps[1] {
            Draw::Text(text) => assert_eq!(text.matches("~\n").count(), usize::from(rows)),
            other => panic!("the second step is {:?}", other),
        }
    }
}
