//! The engine's entry points, as values.
//!
//! An operation of the binding does not reach the engine by itself: it
//! builds the call, and whoever holds the engine makes it. Status codes and
//! sizes that the engine answers with are the caller's to pass on unchanged.

use vstd::prelude::*;
use crate::text::{native_layout, native_text, nul_free};

verus! {

/// One call of an entry point of the engine, with its arguments in the
/// engine's own layout.
#[derive(Debug, PartialEq, Eq)]
pub enum EngineCall {
    /// Show the prompt and read one line.
    ReadLine(Vec<u8>),
    /// Append a line to the history.
    HistoryAdd(Vec<u8>),
    /// Cap the history at this many lines.
    HistorySetMaxLen(i32),
    /// Write the history to the file of this name.
    HistorySave(Vec<u8>),
    /// Read the history from the file of this name.
    HistoryLoad(Vec<u8>),
    /// Look up the history line at this index, counted from zero.
    HistoryLine(i32),
    /// Discard the history held in memory.
    HistoryFree,
    /// Clear the terminal.
    ClearScreen,
    /// Switch multi-line editing on (non-zero) or off (zero).
    SetMultiLine(i32),
    /// Echo key codes until the user quits.
    PrintKeyCodes,
    /// Make the binding's trampoline the engine's completion callback.
    SetCompletionCallback,
    /// Take the completion callback away from the engine.
    ResetCompletionCallback,
    /// Ask for the terminal's width in columns.
    GetWidth,
    /// Ask for the terminal's height in rows.
    GetHeight,
}

/// Lays out text that is known to be free of NUL.
fn laid_out(text: &str) -> (r: Vec<u8>)
    requires
        nul_free(text@),
    ensures
        r@ == native_layout(text@),
{
    native_text(text).unwrap()
}

/// The call that shows `prompt` and reads a line. What the engine returns
/// for it is read by [`owned_copy`](crate::text::owned_copy).
pub fn input(prompt: &str) -> (r: EngineCall)
    requires
        nul_free(prompt@),
    ensures
        r matches EngineCall::ReadLine(p) && p@ == native_layout(prompt@),
{
    EngineCall::ReadLine(laid_out(prompt))
}

/// The call that adds `line` to the history. The engine answers with a
/// status code.
pub fn history_add(line: &str) -> (r: EngineCall)
    requires
        nul_free(line@),
    ensures
        r matches EngineCall::HistoryAdd(l) && l@ == native_layout(line@),
{
    EngineCall::HistoryAdd(laid_out(line))
}

/// The call that caps the history at `len` lines. No length is refused
/// here: the engine judges it and answers with a status code.
pub fn history_set_max_len(len: i32) -> (r: EngineCall)
    ensures
        r == EngineCall::HistorySetMaxLen(len),
{
    EngineCall::HistorySetMaxLen(len)
}

/// The call that saves the history to `file`. The engine answers with a
/// status code.
pub fn history_save(file: &str) -> (r: EngineCall)
    requires
        nul_free(file@),
    ensures
        r matches EngineCall::HistorySave(f) && f@ == native_layout(file@),
{
    EngineCall::HistorySave(laid_out(file))
}

/// The call that loads the history from `file`. The engine answers with a
/// status code.
pub fn history_load(file: &str) -> (r: EngineCall)
    requires
        nul_free(file@),
    ensures
        r matches EngineCall::HistoryLoad(f) && f@ == native_layout(file@),
{
    EngineCall::HistoryLoad(laid_out(file))
}

/// The call that looks up the history line at `index`, counted from zero.
/// What the engine returns for it is read by
/// [`owned_copy`](crate::text::owned_copy).
pub fn history_line(index: i32) -> (r: EngineCall)
    ensures
        r == EngineCall::HistoryLine(index),
{
    EngineCall::HistoryLine(index)
}

/// The call that discards the history held in memory.
pub fn history_free() -> (r: EngineCall)
    ensures
        r == EngineCall::HistoryFree,
{
    EngineCall::HistoryFree
}

/// The call that clears the terminal.
pub fn clear_screen() -> (r: EngineCall)
    ensures
        r == EngineCall::ClearScreen,
{
    EngineCall::ClearScreen
}

/// The call that switches multi-line editing: on for a non-zero `ml`, off
/// for zero.
pub fn set_multiline(ml: i32) -> (r: EngineCall)
    ensures
        r == EngineCall::SetMultiLine(ml),
{
    EngineCall::SetMultiLine(ml)
}

/// The call that starts the engine's key code echo.
pub fn print_key_codes() -> (r: EngineCall)
    ensures
        r == EngineCall::PrintKeyCodes,
{
    EngineCall::PrintKeyCodes
}

/// The two calls that ask for the terminal's size: its columns, then its
/// rows. The answers hold as of the calls; nothing is kept.
pub fn dimensions() -> (r: (EngineCall, EngineCall))
    ensures
        r == (EngineCall::GetWidth, EngineCall::GetHeight),
{
    (EngineCall::GetWidth, EngineCall::GetHeight)
}

} // verus!
