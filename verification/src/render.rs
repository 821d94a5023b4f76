//! The text that the client prints: fixed-width columns for received
//! samples, and the notices for disposals, status changes and faults.

use crate::motion::{Shape, ShapeView};
use vstd::prelude::*;
use vstd::string::*;

verus! {

/// The character of one decimal digit.
pub open spec fn digit(d: int) -> char {
    if d == 0 {
        '0'
    } else if d == 1 {
        '1'
    } else if d == 2 {
        '2'
    } else if d == 3 {
        '3'
    } else if d == 4 {
        '4'
    } else if d == 5 {
        '5'
    } else if d == 6 {
        '6'
    } else if d == 7 {
        '7'
    } else if d == 8 {
        '8'
    } else {
        '9'
    }
}

/// The decimal digits of `n`, most significant first, without leading zeros.
pub open spec fn decimal(n: nat) -> Seq<char>
    decreases n,
{
    if n < 10 {
        seq![digit(n as int)]
    } else {
        decimal(n / 10).push(digit((n % 10) as int))
    }
}

/// The decimal form of an integer: a minus sign where it is negative, then
/// the digits of its size.
pub open spec fn signed_decimal(n: int) -> Seq<char> {
    if n < 0 {
        "-"@ + decimal((-n) as nat)
    } else {
        decimal(n as nat)
    }
}

/// `count` spaces.
pub open spec fn spaces(count: nat) -> Seq<char> {
    Seq::new(count, |i: int| ' ')
}

/// A left-aligned column of exactly `width` characters: `text` cut after
/// `width` characters, or filled up with spaces.
pub open spec fn column(text: Seq<char>, width: nat) -> Seq<char> {
    if text.len() >= width {
        text.take(width as int)
    } else {
        text + spaces((width - text.len()) as nat)
    }
}

/// A right-aligned field of at least `width` characters: spaces in front of
/// `text` where it is shorter, and never cut.
pub open spec fn right_aligned(text: Seq<char>, width: nat) -> Seq<char> {
    if text.len() >= width {
        text
    } else {
        spaces((width - text.len()) as nat) + text
    }
}

fn digit_text(d: u64) -> (text: &'static str)
    requires
        d < 10,
    ensures
        text@ == seq![digit(d as int)],
{
    proof {
        reveal_strlit("0");
        reveal_strlit("1");
        reveal_strlit("2");
        reveal_strlit("3");
        reveal_strlit("4");
        reveal_strlit("5");
        reveal_strlit("6");
        reveal_strlit("7");
        reveal_strlit("8");
        reveal_strlit("9");
    }
    let text = if d == 0 {
        "0"
    } else if d == 1 {
        "1"
    } else if d == 2 {
        "2"
    } else if d == 3 {
        "3"
    } else if d == 4 {
        "4"
    } else if d == 5 {
        "5"
    } else if d == 6 {
        "6"
    } else if d == 7 {
        "7"
    } else if d == 8 {
        "8"
    } else {
        "9"
    };
    assert(text@ =~= seq![digit(d as int)]);
    text
}

/// Writes `n` in decimal.
pub fn decimal_text(n: u64) -> (text: String)
    ensures
        text@ == decimal(n as nat),
    decreases n,
{
    if n < 10 {
        String::from_str(digit_text(n))
    } else {
        let mut text = decimal_text(n / 10);
        let last = digit_text(n % 10);
        text.append(last);
        assert(text@ =~= decimal((n / 10) as nat).push(digit((n % 10) as int)));
        text
    }
}

/// Writes a signed integer in decimal.
pub fn signed_decimal_text(n: i32) -> (text: String)
    ensures
        text@ == signed_decimal(n as int),
{
    if n < 0 {
        let size: u64 = (-(n as i64)) as u64;
        let digits = decimal_text(size);
        let mut text = String::from_str("-");
        text.append(digits.as_str());
        text
    } else {
        decimal_text(n as u64)
    }
}

fn pad(text: &mut String, count: usize)
    ensures
        final(text)@ == old(text)@ + spaces(count as nat),
{
    let mut done: usize = 0;
    proof {
        reveal_strlit(" ");
        assert(text@ =~= old(text)@ + spaces(0));
    }
    while done < count
        invariant
            done <= count,
            text@ == old(text)@ + spaces(done as nat),
            " "@.len() == 1,
            " "@[0] == ' ',
        decreases count - done,
    {
        text.append(" ");
        done = done + 1;
        assert(text@ =~= old(text)@ + spaces(done as nat));
    }
}

/// Fits `text` into a left-aligned column of `width` characters.
pub fn column_text(text: &str, width: usize) -> (cell: String)
    ensures
        cell@ == column(text@, width as nat),
{
    let length = text.unicode_len();
    if length >= width {
        String::from_str(text.substring_char(0, width))
    } else {
        let mut cell = String::from_str(text);
        pad(&mut cell, width - length);
        cell
    }
}

/// Puts `text` at the right of a field of `width` characters.
pub fn right_aligned_text(text: &str, width: usize) -> (cell: String)
    ensures
        cell@ == right_aligned(text@, width as nat),
{
    let length = text.unicode_len();
    if length >= width {
        String::from_str(text)
    } else {
        let mut cell = String::new();
        pad(&mut cell, width - length);
        cell.append(text);
        assert(cell@ =~= spaces((width - length) as nat) + text@);
        cell
    }
}

/// Width of the topic and color columns of a sample line.
pub const NAME_WIDTH: usize = 10;

/// Least width of the two coordinate fields of a sample line.
pub const COORDINATE_WIDTH: usize = 3;

/// The line printed for a received sample: topic and color in columns of ten
/// characters, the two coordinates right-aligned in three, and the edge
/// length in square brackets, with one space between the fields.
pub open spec fn sample_line(topic: Seq<char>, shape: ShapeView) -> Seq<char> {
    column(topic, NAME_WIDTH as nat) + " "@ + column(shape.color, NAME_WIDTH as nat) + " "@
        + right_aligned(signed_decimal(shape.x), COORDINATE_WIDTH as nat) + " "@ + right_aligned(
        signed_decimal(shape.y),
        COORDINATE_WIDTH as nat,
    ) + " ["@ + signed_decimal(shape.size) + "]"@
}

/// Writes the line for a sample received on `topic`.
pub fn sample_text(topic: &str, shape: &Shape) -> (line: String)
    ensures
        line@ == sample_line(topic@, shape@),
{
    let mut line = column_text(topic, NAME_WIDTH);
    line.append(" ");
    line.append(column_text(shape.color.as_str(), NAME_WIDTH).as_str());
    line.append(" ");
    line.append(
        right_aligned_text(signed_decimal_text(shape.x).as_str(), COORDINATE_WIDTH).as_str(),
    );
    line.append(" ");
    line.append(
        right_aligned_text(signed_decimal_text(shape.y).as_str(), COORDINATE_WIDTH).as_str(),
    );
    line.append(" [");
    line.append(signed_decimal_text(shape.shapesize).as_str());
    line.append("]");
    line
}

/// What `{:?}` writes for a string: the text between double quotes, with the
/// characters that need it escaped.
pub uninterp spec fn debug_form(text: Seq<char>) -> Seq<char>;

/// Formats `text` with `{:?}` through `format!` of the standard library. The
/// contract only gives that output its name, [`debug_form`]: it is a function
/// of the text alone, and nothing more is claimed of it.
#[verifier::external_body]
fn debug_text(text: &str) -> (quoted: String)
    ensures
        quoted@ == debug_form(text@),
{
    format!("{:?}", text)
}

/// The notice for a disposed key, given the key as `{:?}` writes it.
pub open spec fn disposal_line(quoted_key: Seq<char>) -> Seq<char> {
    "Disposed key "@ + quoted_key
}

/// Writes the notice for a disposed key from the quoted form of the key.
pub fn disposal_text_from(quoted_key: &str) -> (line: String)
    ensures
        line@ == disposal_line(quoted_key@),
{
    let mut line = String::from_str("Disposed key ");
    line.append(quoted_key);
    line
}

/// Writes the notice for the disposal of the instance with key `key`.
pub fn disposal_text(key: &str) -> (line: String)
    ensures
        line@ == disposal_line(debug_form(key@)),
{
    let quoted = debug_text(key);
    disposal_text_from(quoted.as_str())
}

/// The notice for a failed take, given what the reader said of the fault.
pub open spec fn reader_error_line(detail: Seq<char>) -> Seq<char> {
    "DataReader error "@ + detail
}

/// The notice for a status change of the reader.
pub open spec fn reader_status_line(status: Seq<char>) -> Seq<char> {
    "DataReader status: "@ + status
}

/// The notice for a status change of the writer.
pub open spec fn writer_status_line(status: Seq<char>) -> Seq<char> {
    "DataWriter status: "@ + status
}

/// The message logged for a failed write, given what the writer said of the
/// fault.
pub open spec fn write_failure_line(detail: Seq<char>) -> Seq<char> {
    "DataWriter write failed: "@ + detail
}

/// The notice for a wake-up with a token that no source was registered
/// under.
pub open spec fn unexpected_token_line(token: nat) -> Seq<char> {
    "Polled event is Token("@ + decimal(token) + "). WTF?"@
}

/// Writes the notice for a failed take.
pub fn reader_error_text(detail: &str) -> (line: String)
    ensures
        line@ == reader_error_line(detail@),
{
    let mut line = String::from_str("DataReader error ");
    line.append(detail);
    line
}

/// Writes the notice for a status change of the reader.
pub fn reader_status_text(status: &str) -> (line: String)
    ensures
        line@ == reader_status_line(status@),
{
    let mut line = String::from_str("DataReader status: ");
    line.append(status);
    line
}

/// Writes the notice for a status change of the writer.
pub fn writer_status_text(status: &str) -> (line: String)
    ensures
        line@ == writer_status_line(status@),
{
    let mut line = String::from_str("DataWriter status: ");
    line.append(status);
    line
}

/// Writes the message for a failed write.
pub fn write_failure_text(detail: &str) -> (line: String)
    ensures
        line@ == write_failure_line(detail@),
{
    let mut line = String::from_str("DataWriter write failed: ");
    line.append(detail);
    line
}

/// Writes the notice for an unexpected token.
pub fn unexpected_token_text(token: usize) -> (line: String)
    ensures
        line@ == unexpected_token_line(token as nat),
{
    let mut line = String::from_str("Polled event is Token(");
    line.append(decimal_text(token as u64).as_str());
    line.append("). WTF?");
    line
}

} // verus!
