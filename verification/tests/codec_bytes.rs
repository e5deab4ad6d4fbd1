use term_cursor::Error;
use term_cursor::codec::encode_clear;
use term_cursor::codec::encode_goto;
use term_cursor::codec::encode_query;
use term_cursor::codec::encode_report;
use term_cursor::codec::parse_report;

#[test]
fn goto_bytes_are_exact() {
    // 0-based (4, 2) becomes the 1-based sequence ESC[3;5H.
    assert_eq!(encode_goto(4, 2), b"\x1b[3;5H".to_vec());
}

#[test]
fn goto_bytes_origin() {
    assert_eq!(encode_goto(0, 0), b"\x1b[1;1H".to_vec());
}

#[test]
fn goto_bytes_negative_coordinates() {
    // The library writes negative parameters as given; the terminal clamps.
    assert_eq!(encode_goto(-3, -1), b"\x1b[0;-2H".to_vec());
}

#[test]
fn goto_bytes_large_coordinates() {
    assert_eq!(encode_goto(i32::MAX, 99), b"\x1b[100;2147483648H".to_vec());
}

#[test]
fn clear_bytes_are_exact() {
    assert_eq!(encode_clear(), b"\x1b[2J".to_vec());
}

#[test]
fn query_bytes_are_exact() {
    assert_eq!(encode_query(), b"\x1b[6n".to_vec());
}

#[test]
fn report_bytes_are_exact() {
    // A terminal whose cursor is at 0-based (4, 10) reports ESC[11;5R.
    assert_eq!(encode_report(4, 10), b"\x1b[11;5R".to_vec());
}

#[test]
fn parse_report_reads_canonical_report() {
    assert_eq!(parse_report(b"\x1b[11;5R"), Ok((4, 10)));
}

#[test]
fn parse_report_accepts_leading_zeros() {
    assert_eq!(parse_report(b"\x1b[007;003R"), Ok((2, 6)));
}

#[test]
fn parse_report_round_trips_encode_report() {
    let rep = encode_report(123, 456);
    assert_eq!(parse_report(&rep), Ok((123, 456)));
}

#[test]
fn parse_report_rejects_missing_terminator() {
    assert_eq!(parse_report(b"\x1b[11;5"), Err(Error::GetCursorPosParseError));
}

#[test]
fn parse_report_rejects_non_numeric_fields() {
    assert_eq!(parse_report(b"\x1b[a;5R"), Err(Error::GetCursorPosParseError));
    assert_eq!(parse_report(b"\x1b[11;xR"), Err(Error::GetCursorPosParseError));
}

#[test]
fn parse_report_rejects_empty_fields() {
    assert_eq!(parse_report(b"\x1b[;5R"), Err(Error::GetCursorPosParseError));
    assert_eq!(parse_report(b"\x1b[11;R"), Err(Error::GetCursorPosParseError));
}

#[test]
fn parse_report_rejects_missing_prefix() {
    assert_eq!(parse_report(b"[11;5R"), Err(Error::GetCursorPosParseError));
    assert_eq!(parse_report(b""), Err(Error::GetCursorPosParseError));
    assert_eq!(parse_report(b"\x1b"), Err(Error::GetCursorPosParseError));
}

#[test]
fn parse_report_rejects_trailing_bytes() {
    assert_eq!(parse_report(b"\x1b[11;5Rx"), Err(Error::GetCursorPosParseError));
}

#[test]
fn parse_report_rejects_zero_fields() {
    // Report fields are 1-based coordinates; zero is not one.
    assert_eq!(parse_report(b"\x1b[0;5R"), Err(Error::GetCursorPosParseError));
    assert_eq!(parse_report(b"\x1b[11;0R"), Err(Error::GetCursorPosParseError));
}

#[test]
fn parse_report_handles_extreme_values() {
    // 2147483648 - 1 still fits an i32; one more does not.
    assert_eq!(parse_report(b"\x1b[2147483648;1R"), Ok((0, i32::MAX)));
    assert_eq!(
        parse_report(b"\x1b[2147483649;1R"),
        Err(Error::GetCursorPosParseError)
    );
    assert_eq!(
        parse_report(b"\x1b[99999999999999999999;1R"),
        Err(Error::GetCursorPosParseError)
    );
}
