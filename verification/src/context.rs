//! The editor's state: the terminal it runs on and its command bar.

use vstd::prelude::*;
use console::Term;
use crate::command_bar::{after_key, CommandBar};
use crate::key::Key;

verus! {

/// `console::Term`, a handle to a terminal. The library keeps it for the
/// caller and never looks inside.
#[verifier::external_type_specification]
#[verifier::external_body]
pub struct ExTerm(console::Term);

/// `console::Term::stdout` makes a handle to standard output. Nothing is
/// claimed of the handle.
pub assume_specification[ console::Term::stdout ]() -> (term: console::Term);

/// All the state there is. It is made once and handed to every update and
/// every redraw.
pub struct Context {
    term: Term,
    command_bar: CommandBar,
}

impl Context {
    /// The terminal handle.
    pub closed spec fn terminal(&self) -> Term {
        self.term
    }

    /// The characters of the command line.
    pub closed spec fn line(&self) -> Seq<char> {
        self.command_bar@
    }

    /// A context on standard output with an empty command line.
    pub fn new() -> (context: Context)
        ensures
            context.line() == Seq::<char>::empty(),
    {
        Context { term: Term::stdout(), command_bar: CommandBar::new() }
    }

    /// Reacts to one key: Enter discards the line, Backspace removes its last
    /// character, a character is appended, and any other key is ignored.
    pub fn update(&mut self, k: Key)
        ensures
            final(self).line() == after_key(old(self).line(), k),
            final(self).terminal() == old(self).terminal(),
            k is Other ==> final(self).line() == old(self).line(),
    {
        match k {
            Key::Enter => self.command_bar.clear(),
            Key::Backspace => self.command_bar.backspace(),
            Key::Char(c) => self.command_bar.push(c),
            Key::Other => {},
        }
    }

    /// The terminal that the frames are meant for.
    pub fn term(&self) -> (term: &Term)
        ensures
            *term == self.terminal(),
    {
        &self.term
    }

    /// The command bar.
    pub fn command_bar(&self) -> (bar: &CommandBar)
        ensures
            bar@ == self.line(),
    {
        &self.command_bar
    }
}

} // verus!
