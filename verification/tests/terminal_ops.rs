use term_cursor::Error;
use term_cursor::Terminal;
use term_cursor::WinApiError;
use term_cursor::ansi::AnsiTerm;
use term_cursor::clear;
use term_cursor::get_cursor_pos;
use term_cursor::set_cursor_pos;
use term_cursor::win::WinConsole;

fn ansi_at(x: i32, y: i32) -> Terminal {
    Terminal::Ansi(AnsiTerm {
        cursor_x: x,
        cursor_y: y,
        io_ok: true,
        err_code: 0,
        reply: None,
        written: Vec::new(),
    })
}

fn win_at(x: i32, y: i32) -> WinConsole {
    WinConsole {
        handle_ok: true,
        info_ok: true,
        fill_char_ok: true,
        fill_attr_ok: true,
        set_pos_ok: true,
        width: 80,
        height: 25,
        cursor_x: x,
        cursor_y: y,
        chars_blank: false,
        attrs_default: false,
    }
}

fn written_bytes(term: &Terminal) -> &[u8] {
    match term {
        Terminal::Ansi(t) => &t.written,
        Terminal::Windows(_) => panic!("an ANSI terminal was expected"),
    }
}

#[test]
fn set_then_get_round_trips_on_ansi() {
    let mut t = ansi_at(17, 3);
    assert_eq!(set_cursor_pos(&mut t, 42, 7), Ok(()));
    assert_eq!(get_cursor_pos(&mut t), Ok((42, 7)));
}

#[test]
fn set_then_get_round_trips_on_windows() {
    let mut t = Terminal::Windows(win_at(17, 3));
    assert_eq!(set_cursor_pos(&mut t, 42, 7), Ok(()));
    assert_eq!(get_cursor_pos(&mut t), Ok((42, 7)));
}

#[test]
fn set_writes_the_goto_sequence() {
    let mut t = ansi_at(0, 0);
    set_cursor_pos(&mut t, 2, 5).unwrap();
    assert_eq!(written_bytes(&t), b"\x1b[6;3H");
}

#[test]
fn set_clamps_negative_coordinates_on_ansi() {
    let mut t = ansi_at(4, 4);
    assert_eq!(set_cursor_pos(&mut t, -5, 3), Ok(()));
    assert_eq!(get_cursor_pos(&mut t), Ok((0, 3)));
}

#[test]
fn set_rejects_out_of_buffer_target_on_windows() {
    let mut t = Terminal::Windows(win_at(0, 0));
    assert_eq!(
        set_cursor_pos(&mut t, 80, 0),
        Err(Error::WinApiError(WinApiError::SetConsoleCursorPositionError))
    );
    // The failed call changes nothing.
    assert_eq!(get_cursor_pos(&mut t), Ok((0, 0)));
}

#[test]
fn clear_then_get_returns_origin_on_ansi() {
    let mut t = ansi_at(12, 34);
    assert_eq!(clear(&mut t), Ok(()));
    assert_eq!(get_cursor_pos(&mut t), Ok((0, 0)));
}

#[test]
fn clear_then_get_returns_origin_on_windows() {
    let mut t = Terminal::Windows(win_at(12, 20));
    assert_eq!(clear(&mut t), Ok(()));
    assert_eq!(get_cursor_pos(&mut t), Ok((0, 0)));
}

#[test]
fn clear_writes_clear_and_goto_origin() {
    let mut t = ansi_at(12, 34);
    clear(&mut t).unwrap();
    assert_eq!(written_bytes(&t), b"\x1b[2J\x1b[1;1H");
}

#[test]
fn clear_blanks_the_windows_buffer() {
    let mut t = Terminal::Windows(win_at(12, 20));
    clear(&mut t).unwrap();
    match t {
        Terminal::Windows(after) => {
            assert!(after.chars_blank);
            assert!(after.attrs_default);
            assert_eq!((after.cursor_x, after.cursor_y), (0, 0));
        },
        Terminal::Ansi(_) => unreachable!(),
    }
}

#[test]
fn io_failure_reports_the_os_code_and_writes_nothing() {
    let mut t = Terminal::Ansi(AnsiTerm {
        cursor_x: 1,
        cursor_y: 1,
        io_ok: false,
        err_code: 42,
        reply: None,
        written: Vec::new(),
    });
    assert_eq!(set_cursor_pos(&mut t, 3, 3), Err(Error::IoError(42)));
    assert_eq!(get_cursor_pos(&mut t), Err(Error::IoError(42)));
    assert_eq!(clear(&mut t), Err(Error::IoError(42)));
    assert_eq!(written_bytes(&t), b"");
}

#[test]
fn malformed_reply_yields_parse_error_from_get() {
    let mut t = Terminal::Ansi(AnsiTerm {
        cursor_x: 2,
        cursor_y: 2,
        io_ok: true,
        err_code: 0,
        reply: Some(b"\x1b[3;9".to_vec()),
        written: Vec::new(),
    });
    assert_eq!(get_cursor_pos(&mut t), Err(Error::GetCursorPosParseError));
}

#[test]
fn scripted_reply_is_parsed_not_trusted() {
    // The terminal answers with a report that differs from its true cursor:
    // get returns what was parsed from the reply.
    let mut t = Terminal::Ansi(AnsiTerm {
        cursor_x: 2,
        cursor_y: 2,
        io_ok: true,
        err_code: 0,
        reply: Some(b"\x1b[2;3R".to_vec()),
        written: Vec::new(),
    });
    assert_eq!(get_cursor_pos(&mut t), Ok((2, 1)));
}

#[test]
fn windows_handle_fault_names_get_std_handle() {
    let mut c = win_at(5, 5);
    c.handle_ok = false;
    let mut t = Terminal::Windows(c);
    let expected = Err(Error::WinApiError(WinApiError::GetStdHandleError));
    assert_eq!(set_cursor_pos(&mut t, 1, 1), expected.clone());
    assert_eq!(clear(&mut t), expected);
    match get_cursor_pos(&mut t) {
        Err(Error::WinApiError(WinApiError::GetStdHandleError)) => {},
        other => panic!("unexpected outcome: {:?}", other),
    }
}

#[test]
fn windows_info_fault_names_screen_buffer_info() {
    let mut c = win_at(5, 5);
    c.info_ok = false;
    let mut t = Terminal::Windows(c);
    let expected = Err(Error::WinApiError(WinApiError::GetConsoleScreenBufferInfoError));
    assert_eq!(clear(&mut t), expected);
    match get_cursor_pos(&mut t) {
        Err(Error::WinApiError(WinApiError::GetConsoleScreenBufferInfoError)) => {},
        other => panic!("unexpected outcome: {:?}", other),
    }
    // Setting the cursor needs no buffer info and still works.
    assert_eq!(set_cursor_pos(&mut t, 1, 1), Ok(()));
}

#[test]
fn windows_fill_char_fault_leaves_no_mutation() {
    let mut c = win_at(5, 5);
    c.fill_char_ok = false;
    let mut t = Terminal::Windows(c);
    assert_eq!(
        clear(&mut t),
        Err(Error::WinApiError(WinApiError::FillConsoleOutputCharacterError))
    );
    match t {
        Terminal::Windows(after) => {
            assert!(!after.chars_blank);
            assert!(!after.attrs_default);
            assert_eq!((after.cursor_x, after.cursor_y), (5, 5));
        },
        Terminal::Ansi(_) => unreachable!(),
    }
}

#[test]
fn windows_fill_attr_fault_accounts_for_the_character_fill() {
    let mut c = win_at(5, 5);
    c.fill_attr_ok = false;
    let mut t = Terminal::Windows(c);
    assert_eq!(
        clear(&mut t),
        Err(Error::WinApiError(WinApiError::FillConsoleOutputAttributeError))
    );
    match t {
        Terminal::Windows(after) => {
            // The character fill had already happened; the attribute fill
            // and the cursor reset had not.
            assert!(after.chars_blank);
            assert!(!after.attrs_default);
            assert_eq!((after.cursor_x, after.cursor_y), (5, 5));
        },
        Terminal::Ansi(_) => unreachable!(),
    }
}

#[test]
fn windows_set_pos_fault_names_set_cursor_position() {
    let mut c = win_at(5, 5);
    c.set_pos_ok = false;
    let mut t = Terminal::Windows(c);
    let expected = Err(Error::WinApiError(WinApiError::SetConsoleCursorPositionError));
    assert_eq!(set_cursor_pos(&mut t, 1, 1), expected.clone());
    // Clearing fails at its last step: both fills are done, the cursor
    // stays where it was.
    assert_eq!(clear(&mut t), expected);
    match t {
        Terminal::Windows(after) => {
            assert!(after.chars_blank);
            assert!(after.attrs_default);
            assert_eq!((after.cursor_x, after.cursor_y), (5, 5));
        },
        Terminal::Ansi(_) => unreachable!(),
    }
}
