//! The control sequences that reposition the cursor and clear a line.
//!
//! The sequences themselves come from `crossterm`; this module states what
//! they are and proves the one combination the status line needs.

use crossterm::cursor::MoveToColumn;
use crossterm::terminal::{Clear, ClearType};
use crossterm::Command;
use vstd::prelude::*;

verus! {

/// The escape character that opens every control sequence.
pub const ESCAPE: char = '\x1b';

/// The decimal digit for `d`, where `d` is below ten.
pub open spec fn digit_char(d: nat) -> char {
    (('0' as nat) + d) as char
}

/// `n` in decimal, without sign or padding.
pub open spec fn decimal(n: nat) -> Seq<char>
    decreases n,
{
    if n < 10 {
        seq![digit_char(n)]
    } else {
        decimal(n / 10).push(digit_char(n % 10))
    }
}

/// A control sequence: the introducer `ESC [`, then `body`.
pub open spec fn csi(body: Seq<char>) -> Seq<char> {
    seq![ESCAPE, '['] + body
}

/// The sequence that puts the cursor in `column`, counted from zero, of the
/// current row. The terminal counts columns from one.
pub open spec fn move_to_column(column: u16) -> Seq<char> {
    csi(decimal((column + 1) as nat).push('G'))
}

/// The sequence that erases the whole of the current line.
pub open spec fn clear_current_line() -> Seq<char> {
    csi(seq!['2', 'K'])
}

/// What takes the cursor back to the start of the line and empties the
/// line: `ESC [ 1 G ESC [ 2 K`.
pub open spec fn line_reset() -> Seq<char> {
    seq![ESCAPE, '[', '1', 'G', ESCAPE, '[', '2', 'K']
}

/// Trusted: `crossterm::cursor::MoveToColumn(column).write_ansi`, written
/// into a fresh string. The command writes the introducer, the column plus
/// one in decimal, and `G`. The largest column is left out because the
/// command adds one to it in sixteen bits.
#[verifier::external_body]
fn move_to_column_sequence(column: u16) -> (out: String)
    requires
        column < u16::MAX,
    ensures
        out@ == move_to_column(column),
{
    let mut out = String::new();
    let _ = MoveToColumn(column).write_ansi(&mut out);
    out
}

/// Trusted: `crossterm::terminal::Clear(ClearType::CurrentLine).write_ansi`,
/// written into a fresh string. The command writes the introducer and `2K`.
#[verifier::external_body]
fn clear_current_line_sequence() -> (out: String)
    ensures
        out@ == clear_current_line(),
{
    let mut out = String::new();
    let _ = Clear(ClearType::CurrentLine).write_ansi(&mut out);
    out
}

/// The text that takes the cursor to column zero and clears the line.
pub fn line_reset_sequence() -> (out: String)
    ensures
        out@ == line_reset(),
{
    let mut out = move_to_column_sequence(0);
    let clear = clear_current_line_sequence();
    out.append(clear.as_str());
    proof {
        assert(decimal(1) =~= seq!['1']);
        assert(out@ =~= line_reset());
    }
    out
}

} // verus!
