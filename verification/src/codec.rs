use vstd::prelude::*;

use crate::error::Error;

verus! {

// Byte values used by the escape sequences, by name:
//   27 ESC, 91 '[', 59 ';', 72 'H', 82 'R', 74 'J', 50 '2', 54 '6',
//   110 'n', 45 '-', 48 '0', 57 '9'.

/// Is `b` the code of an ASCII decimal digit?
pub open spec fn is_digit(b: u8) -> bool {
    48 <= b && b <= 57
}

/// The value of a string of ASCII decimal digits, most significant first.
pub open spec fn dec_val(s: Seq<u8>) -> int
    decreases s.len(),
{
    if s.len() == 0 {
        0
    } else {
        dec_val(s.drop_last()) * 10 + (s.last() - 48)
    }
}

/// The canonical (no leading zero) ASCII decimal digits of `n`.
pub open spec fn dec_seq(n: nat) -> Seq<u8>
    decreases n,
{
    if n < 10 {
        seq![(48 + n) as u8]
    } else {
        dec_seq(n / 10).push((48 + n % 10) as u8)
    }
}

/// The ASCII decimal digits of `n`, with a leading minus sign if negative.
pub open spec fn sdec_seq(n: int) -> Seq<u8> {
    if n < 0 {
        seq![45u8] + dec_seq((-n) as nat)
    } else {
        dec_seq(n as nat)
    }
}

/// The escape sequence that positions the cursor at 0-based column `x`,
/// row `y`: `ESC [ {y+1} ; {x+1} H` (the terminal takes 1-based parameters).
pub open spec fn goto_seq(x: int, y: int) -> Seq<u8> {
    seq![27u8, 91u8] + sdec_seq(y + 1) + seq![59u8] + sdec_seq(x + 1) + seq![72u8]
}

/// The full-screen-clear escape sequence `ESC [ 2 J`.
pub open spec fn clear_seq() -> Seq<u8> {
    seq![27u8, 91u8, 50u8, 74u8]
}

/// The cursor-position-report request `ESC [ 6 n`.
pub open spec fn query_seq() -> Seq<u8> {
    seq![27u8, 91u8, 54u8, 110u8]
}

/// The canonical cursor position report `ESC [ {row} ; {col} R` a terminal
/// sends in answer to the query, with 1-based `row` and `col`.
pub open spec fn report_seq(row: int, col: int) -> Seq<u8> {
    seq![27u8, 91u8] + dec_seq(row as nat) + seq![59u8] + dec_seq(col as nat) + seq![82u8]
}

/// The number of consecutive ASCII digits in `s` starting at index `i`.
pub open spec fn digit_run(s: Seq<u8>, i: int) -> int
    decreases s.len() - i,
{
    if 0 <= i && i < s.len() && is_digit(s[i]) {
        1 + digit_run(s, i + 1)
    } else {
        0
    }
}

/// Does `s` match the position report grammar
/// `ESC [ digits ; digits R`, with nothing before or after?
pub open spec fn report_wf(s: Seq<u8>) -> bool {
    let n1 = digit_run(s, 2);
    let n2 = digit_run(s, 3 + n1);
    &&& s.len() >= 2
    &&& s[0] == 27u8
    &&& s[1] == 91u8
    &&& n1 >= 1
    &&& 2 + n1 < s.len()
    &&& s[2 + n1] == 59u8
    &&& n2 >= 1
    &&& s.len() == 4 + n1 + n2
    &&& s[3 + n1 + n2] == 82u8
}

/// The 1-based row field of a well-formed report.
pub open spec fn report_row(s: Seq<u8>) -> int {
    dec_val(s.subrange(2, 2 + digit_run(s, 2)))
}

/// The 1-based column field of a well-formed report.
pub open spec fn report_col(s: Seq<u8>) -> int {
    let n1 = digit_run(s, 2);
    dec_val(s.subrange(3 + n1, 3 + n1 + digit_run(s, 3 + n1)))
}

/// Is `s` a report that parsing accepts: well-formed, and both fields
/// 1-based coordinates whose 0-based forms fit in an `i32`?
pub open spec fn report_parses(s: Seq<u8>) -> bool {
    &&& report_wf(s)
    &&& 1 <= report_row(s) <= 0x8000_0000
    &&& 1 <= report_col(s) <= 0x8000_0000
}

/// The digits of `n` are digits, and there is at least one of them.
pub proof fn lemma_dec_seq_digits(n: nat)
    ensures
        dec_seq(n).len() >= 1,
        forall|i: int| 0 <= i < dec_seq(n).len() ==> is_digit(#[trigger] dec_seq(n)[i]),
    decreases n,
{
    if n >= 10 {
        lemma_dec_seq_digits(n / 10);
    }
}

/// Reading the digits of `n` back gives `n`.
pub proof fn lemma_dec_seq_val(n: nat)
    ensures
        dec_val(dec_seq(n)) == n,
    decreases n,
{
    if n < 10 {
        assert(dec_seq(n).drop_last() =~= Seq::<u8>::empty());
        assert(dec_val(dec_seq(n)) == dec_val(dec_seq(n).drop_last()) * 10 + (dec_seq(n).last()
            - 48));
    } else {
        lemma_dec_seq_val(n / 10);
        assert(dec_seq(n).drop_last() =~= dec_seq(n / 10));
        assert(dec_val(dec_seq(n)) == (n / 10) * 10 + (n % 10));
        vstd::arithmetic::div_mod::lemma_fundamental_div_mod(n as int, 10);
    }
}

/// A digit run passes through any index all of whose predecessors
/// (from `a`) are digits.
pub proof fn lemma_digit_run_split(s: Seq<u8>, a: int, b: int)
    requires
        0 <= a <= b <= s.len(),
        forall|i: int| a <= i < b ==> is_digit(s[i]),
    ensures
        digit_run(s, a) == (b - a) + digit_run(s, b),
    decreases b - a,
{
    if a < b {
        lemma_digit_run_split(s, a + 1, b);
    }
}

/// Extending a digit string by one digit multiplies its value by ten and
/// adds the digit.
pub proof fn lemma_dec_val_step(s: Seq<u8>, a: int, k: int)
    requires
        0 <= a <= k < s.len(),
    ensures
        dec_val(s.subrange(a, k + 1)) == dec_val(s.subrange(a, k)) * 10 + (s[k] - 48),
{
    assert(s.subrange(a, k + 1).drop_last() =~= s.subrange(a, k));
    assert(s.subrange(a, k + 1).last() == s[k]);
}

/// Parsing the canonical report of (`row`, `col`) recovers exactly those
/// fields: the encoder and the parser agree.
pub proof fn lemma_report_round_trip(row: int, col: int)
    requires
        1 <= row <= 0x8000_0000,
        1 <= col <= 0x8000_0000,
    ensures
        report_parses(report_seq(row, col)),
        report_row(report_seq(row, col)) == row,
        report_col(report_seq(row, col)) == col,
{
    let s = report_seq(row, col);
    let d1 = dec_seq(row as nat);
    let d2 = dec_seq(col as nat);
    lemma_dec_seq_digits(row as nat);
    lemma_dec_seq_val(row as nat);
    lemma_dec_seq_digits(col as nat);
    lemma_dec_seq_val(col as nat);
    let n1 = d1.len() as int;
    let n2 = d2.len() as int;
    assert(s.len() == 4 + n1 + n2);
    assert forall|i: int| 2 <= i < 2 + n1 implies is_digit(s[i]) by {
        assert(s[i] == d1[i - 2]);
    }
    assert(s[2 + n1] == 59u8);
    lemma_digit_run_split(s, 2, 2 + n1);
    assert(digit_run(s, 2) == n1);
    assert forall|i: int| 3 + n1 <= i < 3 + n1 + n2 implies is_digit(s[i]) by {
        assert(s[i] == d2[i - (3 + n1)]);
    }
    assert(s[3 + n1 + n2] == 82u8);
    lemma_digit_run_split(s, 3 + n1, 3 + n1 + n2);
    assert(digit_run(s, 3 + n1) == n2);
    assert(s.subrange(2, 2 + n1) =~= d1);
    assert(s.subrange(3 + n1, 3 + n1 + n2) =~= d2);
}

/// Append the decimal digits of `n` to `out`.
fn push_dec(out: &mut Vec<u8>, n: u64)
    ensures
        final(out)@ == old(out)@ + dec_seq(n as nat),
    decreases n,
{
    if n < 10 {
        out.push((48 + n) as u8);
        proof {
            assert(out@ =~= old(out)@ + dec_seq(n as nat));
        }
    } else {
        push_dec(out, n / 10);
        out.push((48 + n % 10) as u8);
        proof {
            assert(out@ =~= old(out)@ + dec_seq(n as nat));
        }
    }
}

/// Append the decimal digits of `n` to `out`, sign included.
fn push_sdec(out: &mut Vec<u8>, n: i64)
    requires
        n != i64::MIN,
    ensures
        final(out)@ == old(out)@ + sdec_seq(n as int),
{
    if n < 0 {
        out.push(45);
        push_dec(out, (-n) as u64);
        proof {
            assert(out@ =~= old(out)@ + sdec_seq(n as int));
        }
    } else {
        push_dec(out, n as u64);
    }
}

/// The bytes that move the cursor to 0-based column `x`, row `y`.
pub fn encode_goto(x: i32, y: i32) -> (r: Vec<u8>)
    ensures
        r@ == goto_seq(x as int, y as int),
{
    let mut r: Vec<u8> = Vec::new();
    r.push(27);
    r.push(91);
    push_sdec(&mut r, y as i64 + 1);
    r.push(59);
    push_sdec(&mut r, x as i64 + 1);
    r.push(72);
    proof {
        assert(r@ =~= goto_seq(x as int, y as int));
    }
    r
}

/// The bytes that clear the whole screen.
pub fn encode_clear() -> (r: Vec<u8>)
    ensures
        r@ == clear_seq(),
{
    let mut r: Vec<u8> = Vec::new();
    r.push(27);
    r.push(91);
    r.push(50);
    r.push(74);
    proof {
        assert(r@ =~= clear_seq());
    }
    r
}

/// The bytes that ask the terminal to report its cursor position.
pub fn encode_query() -> (r: Vec<u8>)
    ensures
        r@ == query_seq(),
{
    let mut r: Vec<u8> = Vec::new();
    r.push(27);
    r.push(91);
    r.push(54);
    r.push(110);
    proof {
        assert(r@ =~= query_seq());
    }
    r
}

/// The canonical report a terminal whose cursor is at 0-based column `x`,
/// row `y` sends in answer to the position query.
pub fn encode_report(x: i32, y: i32) -> (r: Vec<u8>)
    requires
        0 <= x,
        0 <= y,
    ensures
        r@ == report_seq(y as int + 1, x as int + 1),
{
    let mut r: Vec<u8> = Vec::new();
    r.push(27);
    r.push(91);
    push_dec(&mut r, y as u64 + 1);
    r.push(59);
    push_dec(&mut r, x as u64 + 1);
    r.push(82);
    proof {
        assert(r@ =~= report_seq(y as int + 1, x as int + 1));
    }
    r
}

/// Scan a run of digits in `s` from `start` and read its value.
///
/// Gives the value and the index one past the run, or `None` when there is
/// no digit at `start` or the value exceeds `0x8000_0000` (the largest that
/// still names an `i32` coordinate after the 1-based to 0-based shift).
fn scan_num(s: &[u8], start: usize) -> (r: Option<(u64, usize)>)
    requires
        start <= s@.len(),
    ensures
        match r {
            Some(p) => {
                &&& digit_run(s@, start as int) >= 1
                &&& p.1 == start + digit_run(s@, start as int)
                &&& p.1 <= s@.len()
                &&& p.0 == dec_val(s@.subrange(start as int, p.1 as int))
                &&& p.0 <= 0x8000_0000
            },
            None => digit_run(s@, start as int) == 0 || dec_val(
                s@.subrange(start as int, start + digit_run(s@, start as int)),
            ) > 0x8000_0000,
        },
{
    let len = s.len();
    let mut k = start;
    let mut acc: u64 = 0;
    let mut over = false;
    while k < len && 48 <= s[k] && s[k] <= 57
        invariant
            start <= k <= len,
            len == s@.len(),
            forall|i: int| start <= i < k ==> is_digit(s@[i]),
            !over ==> acc == dec_val(s@.subrange(start as int, k as int)) && acc <= 0x8000_0000,
            over ==> dec_val(s@.subrange(start as int, k as int)) > 0x8000_0000,
        decreases len - k,
    {
        let d = s[k];
        proof {
            lemma_dec_val_step(s@, start as int, k as int);
        }
        if !over {
            let na = acc * 10 + (d - 48) as u64;
            if na > 0x8000_0000 {
                over = true;
            } else {
                acc = na;
            }
        }
        k = k + 1;
    }
    proof {
        lemma_digit_run_split(s@, start as int, k as int);
        assert(digit_run(s@, k as int) == 0);
    }
    if k == start {
        None
    } else if over {
        None
    } else {
        Some((acc, k))
    }
}

/// Parse a terminal's cursor position report.
///
/// Accepts exactly the grammar `ESC [ digits ; digits R` with 1-based
/// fields whose 0-based forms fit in an `i32`, and returns the 0-based
/// position as `(x, y)` = (column, row). Every other input yields
/// `Error::GetCursorPosParseError`.
pub fn parse_report(reply: &[u8]) -> (r: Result<(i32, i32), Error>)
    ensures
        match r {
            Ok(p) => {
                &&& report_parses(reply@)
                &&& p.0 as int == report_col(reply@) - 1
                &&& p.1 as int == report_row(reply@) - 1
                &&& p.0 >= 0
                &&& p.1 >= 0
            },
            Err(e) => e == Error::GetCursorPosParseError && !report_parses(reply@),
        },
{
    let len = reply.len();
    if len < 2 || reply[0] != 27 || reply[1] != 91 {
        return Err(Error::GetCursorPosParseError);
    }
    let (row, i) = match scan_num(reply, 2) {
        Some(p) => p,
        None => {
            return Err(Error::GetCursorPosParseError);
        },
    };
    if i >= len || reply[i] != 59 {
        return Err(Error::GetCursorPosParseError);
    }
    let (col, j) = match scan_num(reply, i + 1) {
        Some(p) => p,
        None => {
            return Err(Error::GetCursorPosParseError);
        },
    };
    if j != len - 1 || reply[j] != 82 {
        return Err(Error::GetCursorPosParseError);
    }
    if row == 0 || col == 0 {
        return Err(Error::GetCursorPosParseError);
    }
    Ok(((col - 1) as i32, (row - 1) as i32))
}

} // verus!
