use vstd::prelude::*;

use crate::ansi::AnsiTerm;
use crate::error::Error;
use crate::win::WinConsole;

verus! {

/// The terminal a process talks to: either an ANSI/VT terminal over a byte
/// stream (POSIX) or a Windows console. Every operation of the library acts
/// on a value of this type; the unverified shell around the library owns
/// the mapping to the process's real terminal.
pub enum Terminal {
    Ansi(AnsiTerm),
    Windows(WinConsole),
}

impl Terminal {
    /// The backend's own well-formedness.
    pub open spec fn wf(&self) -> bool {
        match self {
            Terminal::Ansi(t) => t.wf(),
            Terminal::Windows(c) => c.wf(),
        }
    }

    /// 0-based column of the terminal's cursor.
    pub open spec fn cursor_x(&self) -> int {
        match self {
            Terminal::Ansi(t) => t.cursor_x as int,
            Terminal::Windows(c) => c.cursor_x as int,
        }
    }

    /// 0-based row of the terminal's cursor.
    pub open spec fn cursor_y(&self) -> int {
        match self {
            Terminal::Ansi(t) => t.cursor_y as int,
            Terminal::Windows(c) => c.cursor_y as int,
        }
    }

    /// Does a position query report the terminal's true cursor position?
    /// An ANSI terminal does when it answers canonically; a Windows console
    /// does when the screen buffer info call works.
    pub open spec fn reports_cursor(&self) -> bool {
        match self {
            Terminal::Ansi(t) => t.reports_cursor(),
            Terminal::Windows(c) => c.info_ok,
        }
    }

    /// The outcome of `set_cursor_pos` on this terminal.
    pub open spec fn set_result(&self, x: i32, y: i32) -> Result<(), Error> {
        match self {
            Terminal::Ansi(t) => t.set_result(x, y),
            Terminal::Windows(c) => c.set_result(x, y),
        }
    }

    /// How `set_cursor_pos` carries this terminal to `post`.
    pub open spec fn set_step(&self, post: Terminal, x: i32, y: i32) -> bool {
        match (self, post) {
            (Terminal::Ansi(t), Terminal::Ansi(u)) => t.set_step(u, x, y),
            (Terminal::Windows(c), Terminal::Windows(d)) => c.set_step(d, x, y),
            _ => false,
        }
    }

    /// The outcome of `get_cursor_pos` on this terminal.
    pub open spec fn get_result(&self) -> Result<(i32, i32), Error> {
        match self {
            Terminal::Ansi(t) => t.get_result(),
            Terminal::Windows(c) => c.get_result(),
        }
    }

    /// How `get_cursor_pos` carries this terminal to `post`.
    pub open spec fn get_step(&self, post: Terminal) -> bool {
        match (self, post) {
            (Terminal::Ansi(t), Terminal::Ansi(u)) => t.get_step(u),
            (Terminal::Windows(c), Terminal::Windows(d)) => post == *self,
            _ => false,
        }
    }

    /// The outcome of `clear` on this terminal.
    pub open spec fn clear_result(&self) -> Result<(), Error> {
        match self {
            Terminal::Ansi(t) => t.clear_result(),
            Terminal::Windows(c) => c.clear_result(),
        }
    }

    /// How `clear` carries this terminal to `post`.
    pub open spec fn clear_step(&self, post: Terminal) -> bool {
        match (self, post) {
            (Terminal::Ansi(t), Terminal::Ansi(u)) => t.clear_step(u),
            (Terminal::Windows(c), Terminal::Windows(d)) => c.clear_step(d),
            _ => false,
        }
    }
}

/// Set the cursor position to the specified coordinates.
/// X and Y correspond to columns and rows respectively.
///
/// On success the cursor lands on the target (an ANSI terminal clamps a
/// negative coordinate to zero; a Windows console refuses a target outside
/// its buffer). On failure the terminal is left as it was and the error
/// names what failed.
pub fn set_cursor_pos(term: &mut Terminal, x: i32, y: i32) -> (r: Result<(), Error>)
    requires
        old(term).wf(),
    ensures
        final(term).wf(),
        r == old(term).set_result(x, y),
        old(term).set_step(*final(term), x, y),
{
    match term {
        Terminal::Ansi(t) => t.set_cursor_pos(x, y),
        Terminal::Windows(c) => c.set_cursor_pos(x, y),
    }
}

/// Get the current cursor position.
/// The pair returned contains the (x, y) coordinates of the cursor.
/// X and Y correspond to columns and rows respectively.
///
/// A terminal that reports faithfully answers with its true cursor
/// position; a reply that does not match the report grammar yields
/// `Error::GetCursorPosParseError`, and a dead stream or failing console
/// call yields its own error.
pub fn get_cursor_pos(term: &mut Terminal) -> (r: Result<(i32, i32), Error>)
    requires
        old(term).wf(),
    ensures
        final(term).wf(),
        r == old(term).get_result(),
        old(term).get_step(*final(term)),
{
    match term {
        Terminal::Ansi(t) => t.get_cursor_pos(),
        Terminal::Windows(c) => c.get_cursor_pos(),
    }
}

/// Clear the screen, i.e. set every character in the terminal to a space,
/// and move the cursor to the origin.
pub fn clear(term: &mut Terminal) -> (r: Result<(), Error>)
    requires
        old(term).wf(),
    ensures
        final(term).wf(),
        r == old(term).clear_result(),
        old(term).clear_step(*final(term)),
{
    match term {
        Terminal::Ansi(t) => t.clear(),
        Terminal::Windows(c) => c.clear(),
    }
}

} // verus!
