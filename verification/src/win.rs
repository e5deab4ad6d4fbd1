use vstd::prelude::*;

use crate::error::Error;
use crate::error::WinApiError;

verus! {

/// A model of a Windows console screen buffer reached through the console
/// API. Each operation is a fixed sequence of API calls; the model carries
/// one switch per call saying whether that call succeeds, so that every
/// failure path — which error is reported, and which mutations had already
/// happened — is pinned down.
pub struct WinConsole {
    /// Does `GetStdHandle` yield a usable output handle?
    pub handle_ok: bool,
    /// Does `GetConsoleScreenBufferInfo` succeed?
    pub info_ok: bool,
    /// Does `FillConsoleOutputCharacter` succeed?
    pub fill_char_ok: bool,
    /// Does `FillConsoleOutputAttribute` succeed?
    pub fill_attr_ok: bool,
    /// Does `SetConsoleCursorPosition` succeed on coordinates inside the
    /// buffer? (Outside the buffer the call fails regardless.)
    pub set_pos_ok: bool,
    /// Width of the screen buffer in columns.
    pub width: i32,
    /// Height of the screen buffer in rows.
    pub height: i32,
    /// 0-based column of the cursor.
    pub cursor_x: i32,
    /// 0-based row of the cursor.
    pub cursor_y: i32,
    /// Is every cell's character a space?
    pub chars_blank: bool,
    /// Does every cell carry the default attribute?
    pub attrs_default: bool,
}

impl WinConsole {
    /// The buffer is not empty and the cursor sits inside it.
    pub open spec fn wf(&self) -> bool {
        &&& self.width >= 1
        &&& self.height >= 1
        &&& 0 <= self.cursor_x < self.width
        &&& 0 <= self.cursor_y < self.height
    }

    /// The outcome of moving the cursor: `GetStdHandle`, then
    /// `SetConsoleCursorPosition`, which also refuses a target outside the
    /// buffer.
    pub open spec fn set_result(&self, x: i32, y: i32) -> Result<(), Error> {
        if !self.handle_ok {
            Err(Error::WinApiError(WinApiError::GetStdHandleError))
        } else if !self.set_pos_ok || x < 0 || y < 0 || x >= self.width || y >= self.height {
            Err(Error::WinApiError(WinApiError::SetConsoleCursorPositionError))
        } else {
            Ok(())
        }
    }

    /// How moving the cursor changes the console: the cursor lands on the
    /// target; a failure leaves everything as it was.
    pub open spec fn set_step(&self, post: WinConsole, x: i32, y: i32) -> bool {
        if self.set_result(x, y) is Ok {
            post == WinConsole { cursor_x: x, cursor_y: y, ..*self }
        } else {
            post == *self
        }
    }

    /// Move the cursor to 0-based column `x`, row `y`.
    pub fn set_cursor_pos(&mut self, x: i32, y: i32) -> (r: Result<(), Error>)
        requires
            old(self).wf(),
        ensures
            final(self).wf(),
            r == old(self).set_result(x, y),
            old(self).set_step(*final(self), x, y),
    {
        if !self.handle_ok {
            return Err(Error::WinApiError(WinApiError::GetStdHandleError));
        }
        if !self.set_pos_ok || x < 0 || y < 0 || x >= self.width || y >= self.height {
            return Err(Error::WinApiError(WinApiError::SetConsoleCursorPositionError));
        }
        self.cursor_x = x;
        self.cursor_y = y;
        Ok(())
    }

    /// The value a position query returns: `GetStdHandle`, then
    /// `GetConsoleScreenBufferInfo`, whose answer carries the cursor.
    pub open spec fn get_result(&self) -> Result<(i32, i32), Error> {
        if !self.handle_ok {
            Err(Error::WinApiError(WinApiError::GetStdHandleError))
        } else if !self.info_ok {
            Err(Error::WinApiError(WinApiError::GetConsoleScreenBufferInfoError))
        } else {
            Ok((self.cursor_x, self.cursor_y))
        }
    }

    /// Query the cursor position. Never changes the console.
    pub fn get_cursor_pos(&mut self) -> (r: Result<(i32, i32), Error>)
        requires
            old(self).wf(),
        ensures
            final(self).wf(),
            r == old(self).get_result(),
            *final(self) == *old(self),
    {
        if !self.handle_ok {
            return Err(Error::WinApiError(WinApiError::GetStdHandleError));
        }
        if !self.info_ok {
            return Err(Error::WinApiError(WinApiError::GetConsoleScreenBufferInfoError));
        }
        Ok((self.cursor_x, self.cursor_y))
    }

    /// The outcome of clearing the screen: `GetStdHandle`, then
    /// `GetConsoleScreenBufferInfo` for the dimensions, then the character
    /// fill, the attribute fill, and the cursor reset to the origin, each
    /// with its own named error.
    pub open spec fn clear_result(&self) -> Result<(), Error> {
        if !self.handle_ok {
            Err(Error::WinApiError(WinApiError::GetStdHandleError))
        } else if !self.info_ok {
            Err(Error::WinApiError(WinApiError::GetConsoleScreenBufferInfoError))
        } else if !self.fill_char_ok {
            Err(Error::WinApiError(WinApiError::FillConsoleOutputCharacterError))
        } else if !self.fill_attr_ok {
            Err(Error::WinApiError(WinApiError::FillConsoleOutputAttributeError))
        } else if !self.set_pos_ok {
            Err(Error::WinApiError(WinApiError::SetConsoleCursorPositionError))
        } else {
            Ok(())
        }
    }

    /// How clearing changes the console, step by step, so that a failure
    /// part way leaves no mutation unaccounted for: a failure before the
    /// character fill changes nothing; a failure at the attribute fill
    /// leaves the characters blank and everything else as it was; a failure
    /// at the cursor reset leaves both fills done and the cursor as it was.
    pub open spec fn clear_step(&self, post: WinConsole) -> bool {
        if !self.handle_ok || !self.info_ok || !self.fill_char_ok {
            post == *self
        } else if !self.fill_attr_ok {
            post == WinConsole { chars_blank: true, ..*self }
        } else if !self.set_pos_ok {
            post == WinConsole { chars_blank: true, attrs_default: true, ..*self }
        } else {
            post == WinConsole {
                chars_blank: true,
                attrs_default: true,
                cursor_x: 0,
                cursor_y: 0,
                ..*self
            }
        }
    }

    /// Clear the screen: fill every cell's character with a space, reset
    /// every cell's attribute to the default, and move the cursor to the
    /// origin.
    pub fn clear(&mut self) -> (r: Result<(), Error>)
        requires
            old(self).wf(),
        ensures
            final(self).wf(),
            r == old(self).clear_result(),
            old(self).clear_step(*final(self)),
    {
        if !self.handle_ok {
            return Err(Error::WinApiError(WinApiError::GetStdHandleError));
        }
        if !self.info_ok {
            return Err(Error::WinApiError(WinApiError::GetConsoleScreenBufferInfoError));
        }
        if !self.fill_char_ok {
            return Err(Error::WinApiError(WinApiError::FillConsoleOutputCharacterError));
        }
        self.chars_blank = true;
        if !self.fill_attr_ok {
            return Err(Error::WinApiError(WinApiError::FillConsoleOutputAttributeError));
        }
        self.attrs_default = true;
        if !self.set_pos_ok {
            return Err(Error::WinApiError(WinApiError::SetConsoleCursorPositionError));
        }
        self.cursor_x = 0;
        self.cursor_y = 0;
        Ok(())
    }
}

} // verus!
