//! The content region: a placeholder fill of marker lines.

use vstd::prelude::*;
use vstd::string::*;
use crate::draw::{Draw, DrawView};
use crate::paint::{blue, blue_on, painted, white, white_on};

verus! {

/// The line that marks a screen row with nothing to show: a tilde and a line
/// break.
pub open spec fn marker() -> Seq<char> {
    seq!['~', '\n']
}

/// `line` written `count` times in a row.
pub open spec fn repeated(line: Seq<char>, count: nat) -> Seq<char>
    decreases count,
{
    if count == 0 {
        Seq::empty()
    } else {
        repeated(line, (count - 1) as nat) + line
    }
}

/// The text of a window of `rows` rows: each marker line painted blue, the
/// block of them painted white. The two flags say whether colours were
/// enabled when the lines and when the block were painted.
pub open spec fn window_text(rows: nat, lines_coloured: bool, block_coloured: bool) -> Seq<char> {
    painted(
        repeated(painted(marker(), blue_on(), lines_coloured), rows),
        white_on(),
        block_coloured,
    )
}

/// `line` written `rows` times in a row.
pub fn fill(line: &str, rows: usize) -> (block: String)
    ensures
        block@ == repeated(line@, rows as nat),
{
    let mut block = String::new();
    let mut done: usize = 0;
    while done < rows
        invariant
            done <= rows,
            block@ == repeated(line@, done as nat),
        decreases rows - done,
    {
        block.append(line);
        done = done + 1;
    }
    block
}

/// A block of `count` lines holds exactly `count` copies of the line, one
/// after the other, and nothing else; a block of no lines is empty.
pub proof fn lemma_repeated_lines(line: Seq<char>, count: nat)
    ensures
        count == 0 ==> repeated(line, count) == Seq::<char>::empty(),
        repeated(line, count).len() == count * line.len(),
        forall|i: int|
            0 <= i < count ==> #[trigger] repeated(line, count).subrange(
                i * line.len(),
                (i + 1) * line.len(),
            ) == line,
    decreases count,
{
    if count > 0 {
        let front = repeated(line, (count - 1) as nat);
        let whole = repeated(line, count);
        let width = line.len() as int;
        lemma_repeated_lines(line, (count - 1) as nat);
        assert(front.len() == (count - 1) * width);
        assert(count * width == (count - 1) * width + width) by (nonlinear_arith);
        assert forall|i: int| 0 <= i < count implies #[trigger] whole.subrange(
            i * width,
            (i + 1) * width,
        ) == line by {
            assert((i + 1) * width == i * width + width) by (nonlinear_arith);
            if i < count - 1 {
                assert(0 <= i * width && (i + 1) * width <= (count - 1) * width) by (nonlinear_arith)
                    requires
                        0 <= i < count - 1,
                        0 <= width,
                ;
                assert(whole.subrange(i * width, (i + 1) * width) =~= front.subrange(
                    i * width,
                    (i + 1) * width,
                ));
            } else {
                assert(whole.subrange(i * width, (i + 1) * width) =~= line);
            }
        }
    }
}

/// The window of a terminal with `rows` rows holds a block of exactly `rows`
/// marker lines, painted as a whole. With no rows the block is empty, and
/// without colours the window is the bare marker lines.
pub proof fn lemma_window_rows(rows: nat, lines_coloured: bool, block_coloured: bool)
    ensures
        ({
            let line = painted(marker(), blue_on(), lines_coloured);
            let block = repeated(line, rows);
            &&& window_text(rows, lines_coloured, block_coloured) == painted(
                block,
                white_on(),
                block_coloured,
            )
            &&& rows == 0 ==> block == Seq::<char>::empty()
            &&& block.len() == rows * line.len()
            &&& forall|i: int|
                0 <= i < rows ==> #[trigger] block.subrange(i * line.len(), (i + 1) * line.len())
                    == line
        }),
        window_text(rows, false, false) == repeated(marker(), rows),
        window_text(0, lines_coloured, false) == Seq::<char>::empty(),
{
    lemma_repeated_lines(painted(marker(), blue_on(), lines_coloured), rows);
}

/// The content region of one frame. It is built anew for every frame.
#[derive(Debug)]
pub struct Window {
    content: String,
}

impl View for Window {
    type V = Seq<char>;

    /// The text of the region, control sequences included.
    closed spec fn view(&self) -> Seq<char> {
        self.content@
    }
}

impl Window {
    /// A window for a terminal with `term_lines` visible rows.
    pub fn new(term_lines: usize) -> (window: Window)
        ensures
            exists|lines_coloured: bool, block_coloured: bool|
                window@ == window_text(term_lines as nat, lines_coloured, block_coloured),
    {
        proof {
            reveal_strlit("~\n");
            assert("~\n"@ =~= marker());
        }
        let line = blue("~\n");
        let block = fill(line.as_str(), term_lines);
        let content = white(block.as_str());
        proof {
            let lines_coloured = line@ == painted(marker(), blue_on(), true);
            let block_coloured = content@ == painted(block@, white_on(), true);
            assert(content@ == window_text(term_lines as nat, lines_coloured, block_coloured));
        }
        Window { content }
    }

    /// The text of the region, as it is written to the terminal.
    pub fn content(&self) -> (text: &str)
        ensures
            text@ == self@,
    {
        self.content.as_str()
    }

    /// The step that paints the region: its text as it is.
    pub fn draw(&self) -> (step: Draw)
        ensures
            step@ == DrawView::Text(self@),
    {
        Draw::Text(self.content.clone())
    }
}

} // verus!
