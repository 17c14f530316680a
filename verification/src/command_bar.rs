//! The single-line input buffer at the bottom of the screen.

use vstd::prelude::*;
use crate::draw::{Draw, DrawView};
use crate::key::Key;

verus! {

/// `String::push`, as the standard library documents it: the character is
/// appended to the end of the string.
pub assume_specification[ String::push ](s: &mut String, ch: char)
    ensures
        final(s)@ == old(s)@.push(ch),
;

/// `String::pop`, as the standard library documents it: the last character is
/// removed and returned; on the empty string nothing changes and `None` is
/// returned.
pub assume_specification[ String::pop ](s: &mut String) -> (ch: Option<char>)
    ensures
        old(s)@.len() == 0 ==> ch == None::<char> && final(s)@ == old(s)@,
        old(s)@.len() > 0 ==> ch == Some(old(s)@.last()) && final(s)@ == old(s)@.drop_last(),
;

/// The input line. It is always in insert mode and has no length limit.
#[derive(Debug)]
pub struct CommandBar {
    input_string: String,
}

impl View for CommandBar {
    type V = Seq<char>;

    /// The characters of the line, oldest first.
    closed spec fn view(&self) -> Seq<char> {
        self.input_string@
    }
}

impl CommandBar {
    /// An empty line.
    pub fn new() -> (bar: CommandBar)
        ensures
            bar@ == Seq::<char>::empty(),
    {
        CommandBar { input_string: String::new() }
    }

    /// Discards the line.
    pub fn clear(&mut self)
        ensures
            final(self)@ == Seq::<char>::empty(),
    {
        self.input_string = String::new();
    }

    /// Appends `c` to the line.
    pub fn push(&mut self, c: char)
        ensures
            final(self)@ == old(self)@.push(c),
    {
        self.input_string.push(c);
    }

    /// Removes the last character of the line; an empty line stays empty.
    pub fn backspace(&mut self)
        ensures
            final(self)@ == without_last(old(self)@),
    {
        let _ = self.input_string.pop();
    }

    /// The line as it stands.
    pub fn input_string(&self) -> (text: &str)
        ensures
            text@ == self@,
    {
        self.input_string.as_str()
    }

    /// The step that paints the bar: the line as it is, without styling.
    pub fn draw(&self) -> (step: Draw)
        ensures
            step@ == DrawView::Text(self@),
    {
        Draw::Text(self.input_string.clone())
    }
}

/// `line` without its last character, or `line` itself where it has none.
pub open spec fn without_last(line: Seq<char>) -> Seq<char> {
    if line.len() == 0 {
        line
    } else {
        line.drop_last()
    }
}

/// The line after one key, by the bar's state table.
pub open spec fn after_key(line: Seq<char>, key: Key) -> Seq<char> {
    match key {
        Key::Enter => Seq::empty(),
        Key::Backspace => without_last(line),
        Key::Char(c) => line.push(c),
        Key::Other => line,
    }
}

/// The line after a run of keys, taken in order.
pub open spec fn after_keys(line: Seq<char>, keys: Seq<Key>) -> Seq<char>
    decreases keys.len(),
{
    if keys.len() == 0 {
        line
    } else {
        after_key(after_keys(line, keys.drop_last()), keys.last())
    }
}

/// The characters that a run of character keys carries, in order.
pub open spec fn characters(keys: Seq<Key>) -> Seq<char> {
    Seq::new(keys.len(), |i: int| keys[i]->Char_0)
}

/// Typing appends: after a run of character keys the line is what it was,
/// followed by the characters typed, in the order in which they were typed.
/// Typed into an empty line, they are the line.
pub proof fn lemma_typing_appends(line: Seq<char>, keys: Seq<Key>)
    requires
        forall|i: int| 0 <= i < keys.len() ==> keys[i] is Char,
    ensures
        after_keys(line, keys) == line + characters(keys),
        after_keys(Seq::empty(), keys) == characters(keys),
    decreases keys.len(),
{
    if keys.len() > 0 {
        let front = keys.drop_last();
        lemma_typing_appends(line, front);
        lemma_typing_appends(Seq::empty(), front);
        assert(line + characters(keys) =~= (line + characters(front)).push(keys.last()->Char_0));
        assert(characters(keys) =~= characters(front).push(keys.last()->Char_0));
    } else {
        assert(line + characters(keys) =~= line);
        assert(characters(keys) =~= Seq::<char>::empty());
    }
}

/// Backspace on an empty line leaves it empty, however often it is pressed.
/// On a line of `n > 0` characters it leaves the first `n - 1` of them, each
/// where it was, and takes the last one away.
pub proof fn lemma_backspace_drops_last(line: Seq<char>)
    ensures
        after_key(line, Key::Backspace) == without_last(line),
        line.len() == 0 ==> without_last(line) == Seq::<char>::empty(),
        line.len() == 0 ==> without_last(without_last(line)) == without_last(line),
        line.len() > 0 ==> without_last(line).len() == line.len() - 1,
        line.len() > 0 ==> line == without_last(line).push(line.last()),
        forall|i: int| 0 <= i < without_last(line).len() ==> without_last(line)[i] == line[i],
{
    if line.len() > 0 {
        assert(line =~= line.drop_last().push(line.last()));
    } else {
        assert(line =~= Seq::<char>::empty());
    }
}

/// Enter empties the line whatever it held, and a second Enter changes
/// nothing more.
pub proof fn lemma_enter_clears(line: Seq<char>)
    ensures
        after_key(line, Key::Enter) == Seq::<char>::empty(),
        after_key(after_key(line, Key::Enter), Key::Enter) == after_key(line, Key::Enter),
{
}

/// A key that is neither Enter nor Backspace nor a character leaves the line
/// as it was.
pub proof fn lemma_other_keys_ignored(line: Seq<char>, key: Key)
    requires
        !(key is Enter),
        !(key is Backspace),
        !(key is Char),
    ensures
        after_key(line, key) == line,
{
}

} // verus!
