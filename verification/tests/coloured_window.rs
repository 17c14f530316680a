use megumish::{render, Context, Draw, Window};

const BLUE_LINE: &str = "\x1b[34m~\n\x1b[0m";

fn colours_on() {
    console::set_colors_enabled(true);
}

#[test]
fn coloured_window_of_two_rows() {
    colours_on();
    assert_eq!(
        Window::new(2).content(),
        "\x1b[37m\x1b[34m~\n\x1b[0m\x1b[34m~\n\x1b[0m\x1b[0m"
    );
}

#[test]
fn coloured_window_of_no_rows_holds_no_line() {
    colours_on();
    let window = Window::new(0);
    assert_eq!(window.content(), "\x1b[37m\x1b[0m");
    assert_eq!(window.content().matches('~').count(), 0);
}

#[test]
fn coloured_window_of_twenty_four_rows() {
    colours_on();
    let window = Window::new(24);
    assert_eq!(window.content().matches(BLUE_LINE).count(), 24);
    assert_eq!(window.content().matches('~').count(), 24);
    assert_eq!(
        window.content(),
        format!("\x1b[37m{}\x1b[0m", BLUE_LINE.repeat(24))
    );
}

#[test]
fn coloured_frame() {
    colours_on();
    let steps = render(&Context::new(), (1, 80));
    assert_eq!(
        steps,
        vec![
            Draw::Clear,
            Draw::Text(String::from("\x1b[37m\x1b[34m~\n\x1b[0m\x1b[0m")),
            Draw::Line(String::new()),
            Draw::Text(String::new()),
        ]
    );
}
