//! Frames as lists of drawing steps.
//!
//! The library never touches the terminal. It says what a frame consists of,
//! step by step and in order, and leaves carrying the steps out to the caller.

use vstd::prelude::*;
use crate::command_bar::{after_key, CommandBar};
use crate::context::Context;
use crate::key::Key;
use crate::status_bar::StatusBar;
use crate::window::{window_text, Window};

verus! {

/// One step of painting a frame.
#[derive(Debug, PartialEq, Eq)]
pub enum Draw {
    /// Clear the whole screen and move to its top left corner.
    Clear,
    /// Write the text as it is.
    Text(String),
    /// Write the text and end the line.
    Line(String),
}

/// What a drawing step says, with its text as a sequence of characters.
pub enum DrawView {
    Clear,
    Text(Seq<char>),
    Line(Seq<char>),
}

impl View for Draw {
    type V = DrawView;

    open spec fn view(&self) -> DrawView {
        match self {
            Draw::Clear => DrawView::Clear,
            Draw::Text(text) => DrawView::Text(text@),
            Draw::Line(text) => DrawView::Line(text@),
        }
    }
}

/// Whether the drawing steps say what `expected` lists, one for one.
pub open spec fn steps_say(steps: Seq<Draw>, expected: Seq<DrawView>) -> bool {
    &&& steps.len() == expected.len()
    &&& forall|i: int| 0 <= i < steps.len() ==> (#[trigger] steps[i])@ == expected[i]
}

/// The steps of one frame, from the top of the screen down: the screen is
/// cleared, then come the window, the status line and, last, the command
/// line.
pub open spec fn frame_steps(window: Seq<char>, status: Seq<char>, command: Seq<char>) -> Seq<
    DrawView,
> {
    seq![
        DrawView::Clear,
        DrawView::Text(window),
        DrawView::Line(status),
        DrawView::Text(command),
    ]
}

/// Whether `steps` paint a frame for a terminal of `rows` rows that shows
/// the command line `line`: a window of `rows` marker lines, with or without
/// colours, a blank status line, and `line`.
pub open spec fn paints(steps: Seq<Draw>, rows: nat, line: Seq<char>) -> bool {
    exists|lines_coloured: bool, block_coloured: bool|
        steps_say(
            steps,
            frame_steps(
                #[trigger] window_text(rows, lines_coloured, block_coloured),
                Seq::<char>::empty(),
                line,
            ),
        )
}

/// The frame that shows the three regions as they are.
pub fn frame(window: &Window, status_bar: &StatusBar, command_bar: &CommandBar) -> (steps: Vec<Draw>)
    ensures
        steps_say(steps@, frame_steps(window@, status_bar@, command_bar@)),
{
    let mut steps: Vec<Draw> = Vec::new();
    steps.push(Draw::Clear);
    steps.push(window.draw());
    steps.push(status_bar.draw());
    steps.push(command_bar.draw());
    steps
}

/// The frame for the current state on a terminal of the given size: a window
/// that fills `size.0` rows, a status bar, and the command line as it stands.
/// `size` is the terminal's size as (rows, columns).
pub fn render(context: &Context, size: (u16, u16)) -> (steps: Vec<Draw>)
    ensures
        paints(steps@, size.0 as nat, context.line()),
{
    let window = Window::new(size.0 as usize);
    let status_bar = StatusBar::new();
    frame(&window, &status_bar, context.command_bar())
}

/// One render cycle: the context reacts to the key `k`, and the frame that
/// comes back shows the command line as it is after that key.
pub fn cycle(context: &mut Context, k: Key, size: (u16, u16)) -> (steps: Vec<Draw>)
    ensures
        final(context).line() == after_key(old(context).line(), k),
        final(context).terminal() == old(context).terminal(),
        paints(steps@, size.0 as nat, final(context).line()),
{
    context.update(k);
    render(context, size)
}

} // verus!
