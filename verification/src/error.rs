use vstd::prelude::*;

verus! {

/// A Windows console error. Indicates which console API call failed.
///
/// The Windows backend performs its work through five console API calls;
/// each variant names the call whose failure produced the error.
#[derive(Clone, Copy, Debug, PartialEq, Eq, Structural)]
pub enum WinApiError {
    GetStdHandleError,
    GetConsoleScreenBufferInfoError,
    FillConsoleOutputCharacterError,
    FillConsoleOutputAttributeError,
    SetConsoleCursorPositionError,
}

/// The central error type.
///
/// - `IoError` wraps the OS error code of a failed read, write or flush on
///   the terminal's streams.
/// - `GetCursorPosParseError` means the terminal's reply to a cursor
///   position query did not match the expected report grammar.
/// - `WinApiError` names the Windows console API call that failed.
#[derive(Clone, Copy, Debug, PartialEq, Eq, Structural)]
pub enum Error {
    IoError(i32),
    GetCursorPosParseError,
    WinApiError(WinApiError),
}

} // verus!
