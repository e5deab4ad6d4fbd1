//! Terminal cursor control with verified platform backends.
//!
//! The library offers three operations on a terminal — set the cursor
//! position, query the cursor position, and clear the screen — over two
//! terminal models: a Windows console driven by five console API calls, and
//! an ANSI/VT terminal driven by escape sequences. The escape-sequence
//! encoders and the cursor-position-report parser are verified against an
//! exact byte-level grammar; the backends are verified against a terminal
//! model that records the cursor, the bytes written, and the outcome of
//! every OS call, so that each operation's effect and each failure's error
//! variant are pinned down. A thin unverified shell maps the ANSI model onto
//! a process's real standard streams.

pub mod ansi;
pub mod codec;
pub mod commands;
pub mod error;
pub mod laws;
pub mod terminal;
pub mod win;

pub use crate::commands::Clear;
pub use crate::commands::Down;
pub use crate::commands::Goto;
pub use crate::commands::Left;
pub use crate::commands::Relative;
pub use crate::commands::RenderError;
pub use crate::commands::Right;
pub use crate::commands::Up;
pub use crate::error::Error;
pub use crate::error::WinApiError;
pub use crate::terminal::Terminal;
pub use crate::terminal::clear;
pub use crate::terminal::get_cursor_pos;
pub use crate::terminal::set_cursor_pos;
