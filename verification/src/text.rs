//! The text of the frame-rate report.

use vstd::prelude::*;
use vstd::string::StringExecFns;

verus! {

/// The character of a decimal digit.
pub open spec fn digit(d: int) -> char {
    if d == 0 {
        '0'
    } else if d == 1 {
        '1'
    } else if d == 2 {
        '2'
    } else if d == 3 {
        '3'
    } else if d == 4 {
        '4'
    } else if d == 5 {
        '5'
    } else if d == 6 {
        '6'
    } else if d == 7 {
        '7'
    } else if d == 8 {
        '8'
    } else {
        '9'
    }
}

/// A number in decimal, without leading zeros.
pub open spec fn decimal(n: nat) -> Seq<char>
    decreases n,
{
    if n < 10 {
        seq![digit(n as int)]
    } else {
        decimal(n / 10).push(digit((n % 10) as int))
    }
}

/// A span of nanoseconds in milliseconds, to two decimal places, rounded
/// down.
pub open spec fn millis(nanos: nat) -> Seq<char> {
    let hundredths = nanos / 10_000;
    decimal(hundredths / 100) + seq!['.', digit(((hundredths % 100) / 10) as int), digit(
        ((hundredths % 100) % 10) as int,
    )]
}

/// The title that reports the frame rate and the frame time of an engine
/// called `name`.
pub open spec fn frame_title(name: Seq<char>, fps: u64, frame_time: u64) -> Seq<char> {
    name + " fps: "@ + decimal(fps as nat) + " | ftime: "@ + millis(frame_time as nat) + "ms"@
}

/// The text of one decimal digit.
fn digit_text(d: u64) -> (text: &'static str)
    requires
        d < 10,
    ensures
        text@ == seq![digit(d as int)],
{
    proof {
        reveal_strlit("0");
        reveal_strlit("1");
        reveal_strlit("2");
        reveal_strlit("3");
        reveal_strlit("4");
        reveal_strlit("5");
        reveal_strlit("6");
        reveal_strlit("7");
        reveal_strlit("8");
        reveal_strlit("9");
    }
    let text = if d == 0 {
        "0"
    } else if d == 1 {
        "1"
    } else if d == 2 {
        "2"
    } else if d == 3 {
        "3"
    } else if d == 4 {
        "4"
    } else if d == 5 {
        "5"
    } else if d == 6 {
        "6"
    } else if d == 7 {
        "7"
    } else if d == 8 {
        "8"
    } else {
        "9"
    };
    assert(text@ =~= seq![digit(d as int)]);
    text
}

/// Appends `n` in decimal to `text`.
pub fn append_decimal(text: &mut String, n: u64)
    ensures
        final(text)@ == old(text)@ + decimal(n as nat),
    decreases n,
{
    if n >= 10 {
        append_decimal(text, n / 10);
    }
    text.append(digit_text(n % 10));
    assert(text@ =~= old(text)@ + decimal(n as nat));
}

/// Appends a span of nanoseconds to `text`, in milliseconds to two decimal
/// places.
pub fn append_millis(text: &mut String, nanos: u64)
    ensures
        final(text)@ == old(text)@ + millis(nanos as nat),
{
    let hundredths = nanos / 10_000;
    let fraction = hundredths % 100;
    proof {
        reveal_strlit(".");
    }
    append_decimal(text, hundredths / 100);
    text.append(".");
    text.append(digit_text(fraction / 10));
    text.append(digit_text(fraction % 10));
    assert(text@ =~= old(text)@ + millis(nanos as nat));
}

/// The title that reports `fps` frames per second and a frame time of
/// `frame_time` nanoseconds for an engine called `name`.
pub fn frame_title_text(name: &str, fps: u64, frame_time: u64) -> (title: String)
    ensures
        title@ == frame_title(name@, fps, frame_time),
{
    let mut title = String::from_str(name);
    title.append(" fps: ");
    append_decimal(&mut title, fps);
    title.append(" | ftime: ");
    append_millis(&mut title, frame_time);
    title.append("ms");
    title
}

} // verus!
