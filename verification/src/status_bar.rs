//! The status line between the window and the command bar.

use vstd::prelude::*;
use crate::draw::{Draw, DrawView};

verus! {

/// The status bar. It keeps one screen row free and has nothing to show yet.
#[derive(Debug)]
pub struct StatusBar;

impl View for StatusBar {
    type V = Seq<char>;

    /// The text of the status line.
    open spec fn view(&self) -> Seq<char> {
        Seq::empty()
    }
}

impl StatusBar {
    /// The status bar. There is only one.
    pub fn new() -> (bar: StatusBar)
        ensures
            bar@ == Seq::<char>::empty(),
    {
        StatusBar
    }

    /// The step that paints the bar: one line, ended.
    pub fn draw(&self) -> (step: Draw)
        ensures
            step@ == DrawView::Line(self@),
    {
        Draw::Line(String::new())
    }
}

} // verus!
