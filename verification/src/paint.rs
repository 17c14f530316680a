//! Colouring text for the terminal.
//!
//! The colouring itself is done by the `console` crate, which decides for each
//! call whether colours are switched on for standard output. What a call
//! hands back is therefore one of two texts, and both are spelled out here.

use vstd::prelude::*;

verus! {

/// The control sequence that selects a blue foreground.
pub open spec fn blue_on() -> Seq<char> {
    seq!['\x1b', '[', '3', '4', 'm']
}

/// The control sequence that selects a white foreground.
pub open spec fn white_on() -> Seq<char> {
    seq!['\x1b', '[', '3', '7', 'm']
}

/// The control sequence that puts the terminal's attributes back.
pub open spec fn reset() -> Seq<char> {
    seq!['\x1b', '[', '0', 'm']
}

/// `text` as it is written for a foreground colour: between the colour's
/// control sequence and a reset where colours are `enabled`, and unchanged
/// where they are not.
pub open spec fn painted(text: Seq<char>, colour_on: Seq<char>, enabled: bool) -> Seq<char> {
    if enabled {
        colour_on + text + reset()
    } else {
        text
    }
}

/// `text` in blue: `console::style(text).blue()`, formatted with `to_string`.
///
/// Trusted, not proved: with colours enabled for standard output the crate
/// writes `ESC[34m`, the text and `ESC[0m`; with colours disabled it writes
/// the text alone. Whether they are enabled depends on the environment at
/// the time of the call, so the contract allows both.
#[verifier::external_body]
pub(crate) fn blue(text: &str) -> (out: String)
    ensures
        out@ == painted(text@, blue_on(), true) || out@ == painted(text@, blue_on(), false),
{
    console::style(text).blue().to_string()
}

/// `text` in white: `console::style(text).white()`, formatted with
/// `to_string`.
///
/// Trusted, not proved: with colours enabled for standard output the crate
/// writes `ESC[37m`, the text and `ESC[0m`; with colours disabled it writes
/// the text alone. Whether they are enabled depends on the environment at
/// the time of the call, so the contract allows both.
#[verifier::external_body]
pub(crate) fn white(text: &str) -> (out: String)
    ensures
        out@ == painted(text@, white_on(), true) || out@ == painted(text@, white_on(), false),
{
    console::style(text).white().to_string()
}

} // verus!
