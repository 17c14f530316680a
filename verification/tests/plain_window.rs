use megumish::{frame, render, CommandBar, Context, Draw, Key, StatusBar, Window};

fn colours_off() {
    console::set_colors_enabled(false);
}

#[test]
fn plain_window_of_no_rows_is_empty() {
    colours_off();
    assert_eq!(Window::new(0).content(), "");
}

#[test]
fn plain_window_of_twenty_four_rows() {
    colours_off();
    let window = Window::new(24);
    assert_eq!(window.content(), "~\n".repeat(24));
    assert_eq!(window.content().lines().count(), 24);
}

#[test]
fn plain_window_is_drawn_as_its_text() {
    colours_off();
    assert_eq!(Window::new(2).draw(), Draw::Text(String::from("~\n~\n")));
}

#[test]
fn plain_frame_uses_the_row_count() {
    colours_off();
    let mut context = Context::new();
    context.update(Key::Char('h'));
    context.update(Key::Char('i'));
    let steps = render(&context, (3, 80));
    assert_eq!(
        steps,
        vec![
            Draw::Clear,
            Draw::Text(String::from("~\n~\n~\n")),
            Draw::Line(String::new()),
            Draw::Text(String::from("hi")),
        ]
    );
}

#[test]
fn plain_frame_of_a_terminal_without_rows() {
    colours_off();
    let steps = render(&Context::new(), (0, 80));
    assert_eq!(
        steps,
        vec![
            Draw::Clear,
            Draw::Text(String::new()),
            Draw::Line(String::new()),
            Draw::Text(String::new()),
        ]
    );
}

#[test]
fn plain_frame_from_its_parts() {
    colours_off();
    let mut bar = CommandBar::new();
    bar.push('q');
    let steps = frame(&Window::new(1), &StatusBar::new(), &bar);
    assert_eq!(
        steps,
        vec![
            Draw::Clear,
            Draw::Text(String::from("~\n")),
            Draw::Line(String::new()),
            Draw::Text(String::from("q")),
        ]
    );
}
