use vstd::prelude::*;

use crate::codec;
use crate::error::Error;

verus! {

/// Clamp a coordinate at zero: a VT terminal treats a position parameter
/// below one as one, so a negative 0-based coordinate lands on zero.
pub open spec fn clamp0(v: int) -> int {
    if v < 0 {
        0
    } else {
        v
    }
}

/// A model of an ANSI/VT terminal reached over a byte stream, as on POSIX
/// systems: the operations write escape sequences to the terminal's input
/// and read its reply from the stream.
///
/// The model records the terminal's cursor, every byte the library writes,
/// whether the stream works at all, and what the terminal answers to a
/// position query. The screen is unbounded: only negative coordinates
/// clamp (to zero).
pub struct AnsiTerm {
    /// 0-based column of the terminal's cursor.
    pub cursor_x: i32,
    /// 0-based row of the terminal's cursor.
    pub cursor_y: i32,
    /// Whether writes to and reads from the terminal's streams succeed.
    /// When false, every operation fails and writes nothing.
    pub io_ok: bool,
    /// The OS error code a failing read or write reports.
    pub err_code: i32,
    /// The terminal's reply to a position query: the canonical report of
    /// its true cursor position when `None`, the given bytes otherwise
    /// (a terminal or stream that answers arbitrarily).
    pub reply: Option<Vec<u8>>,
    /// Every byte written to the terminal so far, oldest first.
    pub written: Vec<u8>,
}

impl AnsiTerm {
    /// The cursor never sits at a negative position.
    pub open spec fn wf(&self) -> bool {
        self.cursor_x >= 0 && self.cursor_y >= 0
    }

    /// Does the terminal answer a position query with its true position?
    pub open spec fn reports_cursor(&self) -> bool {
        self.reply is None
    }

    /// The outcome of moving the cursor: an I/O error when the stream is
    /// down, success otherwise.
    pub open spec fn set_result(&self, x: i32, y: i32) -> Result<(), Error> {
        if self.io_ok {
            Ok(())
        } else {
            Err(Error::IoError(self.err_code))
        }
    }

    /// How moving the cursor changes the terminal: the goto sequence is
    /// written and the cursor lands on the (clamped) target; a failure
    /// leaves everything as it was.
    pub open spec fn set_step(&self, post: AnsiTerm, x: i32, y: i32) -> bool {
        if self.io_ok {
            &&& post.cursor_x == clamp0(x as int)
            &&& post.cursor_y == clamp0(y as int)
            &&& post.io_ok == self.io_ok
            &&& post.err_code == self.err_code
            &&& post.reply == self.reply
            &&& post.written@ == self.written@ + codec::goto_seq(x as int, y as int)
        } else {
            post == *self
        }
    }

    /// Move the cursor to 0-based column `x`, row `y` by writing the goto
    /// escape sequence.
    pub fn set_cursor_pos(&mut self, x: i32, y: i32) -> (r: Result<(), Error>)
        requires
            old(self).wf(),
        ensures
            final(self).wf(),
            r == old(self).set_result(x, y),
            old(self).set_step(*final(self), x, y),
    {
        if !self.io_ok {
            return Err(Error::IoError(self.err_code));
        }
        let mut bytes = codec::encode_goto(x, y);
        self.written.append(&mut bytes);
        self.cursor_x = if x < 0 {
            0
        } else {
            x
        };
        self.cursor_y = if y < 0 {
            0
        } else {
            y
        };
        Ok(())
    }

    /// The value a position query returns: the parse of whatever the
    /// terminal replies — its true position when the reply is canonical.
    pub open spec fn get_result(&self) -> Result<(i32, i32), Error> {
        if !self.io_ok {
            Err(Error::IoError(self.err_code))
        } else {
            match self.reply {
                Option::None => Ok((self.cursor_x, self.cursor_y)),
                Option::Some(b) => if codec::report_parses(b@) {
                    Ok((((codec::report_col(b@) - 1) as i32), ((codec::report_row(b@) - 1) as i32)))
                } else {
                    Err(Error::GetCursorPosParseError)
                },
            }
        }
    }

    /// How a position query changes the terminal: only the query bytes are
    /// written; a failure leaves everything as it was.
    pub open spec fn get_step(&self, post: AnsiTerm) -> bool {
        if self.io_ok {
            &&& post.cursor_x == self.cursor_x
            &&& post.cursor_y == self.cursor_y
            &&& post.io_ok == self.io_ok
            &&& post.err_code == self.err_code
            &&& post.reply == self.reply
            &&& post.written@ == self.written@ + codec::query_seq()
        } else {
            post == *self
        }
    }

    /// Query the cursor position: write `ESC [ 6 n`, then read and parse
    /// the terminal's report.
    pub fn get_cursor_pos(&mut self) -> (r: Result<(i32, i32), Error>)
        requires
            old(self).wf(),
        ensures
            final(self).wf(),
            r == old(self).get_result(),
            old(self).get_step(*final(self)),
    {
        if !self.io_ok {
            return Err(Error::IoError(self.err_code));
        }
        let mut q = codec::encode_query();
        self.written.append(&mut q);
        match &self.reply {
            Option::None => {
                // The terminal answers with the canonical report of its
                // cursor; reading it back through the parser returns
                // exactly that position.
                let rep = codec::encode_report(self.cursor_x, self.cursor_y);
                proof {
                    codec::lemma_report_round_trip(
                        self.cursor_y as int + 1,
                        self.cursor_x as int + 1,
                    );
                }
                codec::parse_report(rep.as_slice())
            },
            Option::Some(b) => codec::parse_report(b.as_slice()),
        }
    }

    /// The outcome of clearing the screen: an I/O error when the stream is
    /// down, success otherwise.
    pub open spec fn clear_result(&self) -> Result<(), Error> {
        if self.io_ok {
            Ok(())
        } else {
            Err(Error::IoError(self.err_code))
        }
    }

    /// How clearing changes the terminal: the clear sequence and a goto to
    /// the origin are written, and the cursor lands on the origin.
    pub open spec fn clear_step(&self, post: AnsiTerm) -> bool {
        if self.io_ok {
            &&& post.cursor_x == 0
            &&& post.cursor_y == 0
            &&& post.io_ok == self.io_ok
            &&& post.err_code == self.err_code
            &&& post.reply == self.reply
            &&& post.written@ == self.written@ + codec::clear_seq() + codec::goto_seq(0, 0)
        } else {
            post == *self
        }
    }

    /// Clear the screen: write `ESC [ 2 J`, then move the cursor to the
    /// origin.
    pub fn clear(&mut self) -> (r: Result<(), Error>)
        requires
            old(self).wf(),
        ensures
            final(self).wf(),
            r == old(self).clear_result(),
            old(self).clear_step(*final(self)),
    {
        if !self.io_ok {
            return Err(Error::IoError(self.err_code));
        }
        let mut bytes = codec::encode_clear();
        self.written.append(&mut bytes);
        let mut origin = codec::encode_goto(0, 0);
        self.written.append(&mut origin);
        self.cursor_x = 0;
        self.cursor_y = 0;
        Ok(())
    }
}

} // verus!
