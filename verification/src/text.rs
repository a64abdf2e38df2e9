//! Text that is shown to people.
use vstd::prelude::*;

verus! {

/// The decimal digit for a number below ten.
pub open spec fn digit(n: nat) -> char {
    (48 + n) as char
}

/// A number in decimal notation, without leading zeros.
pub open spec fn decimal(n: nat) -> Seq<char>
    decreases n,
{
    if n < 10 {
        seq![digit(n)]
    } else {
        decimal(n / 10).push(digit(n % 10))
    }
}

/// `count` blanks.
pub open spec fn blanks(count: nat) -> Seq<char> {
    Seq::new(count, |i: int| ' ')
}

/// A text with as many blanks before it as it takes to make it `width` long.
pub open spec fn right_aligned(text: Seq<char>, width: nat) -> Seq<char> {
    if text.len() < width {
        blanks((width - text.len()) as nat) + text
    } else {
        text
    }
}

/// A line of a message log: its number, right-aligned to five columns, a blank, and the
/// message.
pub open spec fn numbered(number: nat, message: Seq<char>) -> Seq<char> {
    right_aligned(decimal(number), 5).push(' ') + message
}

/// The digit for a number below ten, as a text.
fn digit_str(n: u64) -> (text: &'static str)
    requires
        n < 10,
    ensures
        text@ == seq![digit(n as nat)],
{
    proof {
        reveal_strlit("0");
        reveal_strlit("1");
        reveal_strlit("2");
        reveal_strlit("3");
        reveal_strlit("4");
        reveal_strlit("5");
        reveal_strlit("6");
        reveal_strlit("7");
        reveal_strlit("8");
        reveal_strlit("9");
    }
    match n {
        0 => "0",
        1 => "1",
        2 => "2",
        3 => "3",
        4 => "4",
        5 => "5",
        6 => "6",
        7 => "7",
        8 => "8",
        _ => "9",
    }
}

/// Writes a number in decimal notation.
fn write_decimal(n: u64) -> (text: String)
    ensures
        text@ == decimal(n as nat),
    decreases n,
{
    if n < 10 {
        String::from_str(digit_str(n))
    } else {
        let mut text = write_decimal(n / 10);
        text.append(digit_str(n % 10));
        text
    }
}

/// Writes a line of a message log.
pub fn write_numbered(number: u64, message: &str) -> (line: String)
    ensures
        line@ == numbered(number as nat, message@),
{
    let digits = write_decimal(number);
    let length: usize = digits.as_str().unicode_len();
    let mut line = String::new();
    let mut column: usize = length;
    proof {
        reveal_strlit(" ");
    }
    while column < 5
        invariant
            length <= column,
            length < 5 ==> column <= 5,
            length >= 5 ==> column == length,
            line@ == blanks((column - length) as nat),
            " "@ == seq![' '],
        decreases 5 - column,
    {
        line.append(" ");
        column = column + 1;
    }
    line.append(digits.as_str());
    line.append(" ");
    line.append(message);
    line
}

/// What std's `Debug` writes for a text: the text in quotes, with escapes.
pub uninterp spec fn text_debug(text: Seq<char>) -> Seq<char>;

/// Formats a text with `<str as Debug>::fmt`. The result is named, not stated: which
/// characters are escaped, and how, is std's choice.
#[verifier::external_body]
pub(crate) fn write_text_debug(text: &str) -> (quoted: String)
    ensures
        quoted@ == text_debug(text@),
{
    format!("{:?}", text)
}

/// Writes a label and what it is about.
pub fn write_labelled(label: &str, text: &str) -> (line: String)
    ensures
        line@ == label@ + text@,
{
    let mut line = String::from_str(label);
    line.append(text);
    line
}

/// The number that decimal digits stand for.
pub open spec fn digits_value(digits: Seq<char>) -> int
    decreases digits.len(),
{
    if digits.len() == 0 {
        0
    } else {
        10 * digits_value(digits.drop_last()) + (digits.last() as int - '0' as int)
    }
}

/// A number in decimal notation is made of digits that stand for it, and the first of them is
/// a zero only if there is no other.
pub proof fn decimal_stands_for_its_number(n: nat)
    ensures
        digits_value(decimal(n)) == n,
        decimal(n).len() > 0,
        forall|i: int| 0 <= i < decimal(n).len() ==> '0' <= #[trigger] decimal(n)[i] <= '9',
        decimal(n)[0] == '0' ==> decimal(n).len() == 1,
    decreases n,
{
    reveal_with_fuel(digits_value, 2);
    if n >= 10 {
        decimal_stands_for_its_number(n / 10);
        assert(decimal(n).drop_last() == decimal(n / 10));
        if decimal(n)[0] == '0' {
            assert(decimal(n / 10)[0] == '0');
            assert(digits_value(decimal(n / 10)) == 0);
        }
    }
}

/// A line of a message log ends with the message. Before it stands a blank, and before that
/// the number, in five columns or as many as it takes, with nothing but blanks on its left.
pub proof fn numbered_line_shows_number_and_message(number: nat, message: Seq<char>)
    ensures
        ({
            let line = numbered(number, message);
            let width = line.len() - message.len() - 1;
            let digits = decimal(number).len();
            &&& width == if digits < 5 {
                5
            } else {
                digits as int
            }
            &&& line.skip(width + 1) == message
            &&& line[width] == ' '
            &&& line.subrange(width - digits, width) == decimal(number)
            &&& forall|i: int| 0 <= i < width - digits ==> #[trigger] line[i] == ' '
        }),
{
}

} // verus!
