//! The playback progress line: a fixed-width bar and two clocks.

use vstd::prelude::*;
use vstd::string::StringExecFns;

verus! {

/// Number of cells in the progress bar.
pub const BAR_LENGTH: usize = 50;

/// The character of a cell that playback has passed.
pub const FILLED_CELL: char = '\u{2588}';

/// The character of a cell that playback has not reached.
pub const EMPTY_CELL: char = '\u{2591}';

/// The decimal digit `d` as a character.
pub open spec fn spec_digit(d: nat) -> char
    recommends
        d < 10,
{
    if d == 0 {
        '0'
    } else if d == 1 {
        '1'
    } else if d == 2 {
        '2'
    } else if d == 3 {
        '3'
    } else if d == 4 {
        '4'
    } else if d == 5 {
        '5'
    } else if d == 6 {
        '6'
    } else if d == 7 {
        '7'
    } else if d == 8 {
        '8'
    } else {
        '9'
    }
}

/// `n` in decimal, most significant digit first, without leading zeros.
pub open spec fn spec_decimal(n: nat) -> Seq<char>
    decreases n,
{
    if n < 10 {
        seq![spec_digit(n)]
    } else {
        spec_decimal(n / 10).push(spec_digit(n % 10))
    }
}

/// `n` in decimal, padded with a zero on the left to at least two digits.
pub open spec fn spec_two_digits(n: nat) -> Seq<char> {
    if n < 10 {
        seq!['0'] + spec_decimal(n)
    } else {
        spec_decimal(n)
    }
}

/// `seconds` as minutes and seconds, two digits each at least, with a colon between.
pub open spec fn spec_clock(seconds: nat) -> Seq<char> {
    spec_two_digits(seconds / 60) + seq![':'] + spec_two_digits(seconds % 60)
}

/// `count` copies of `cell`.
pub open spec fn spec_cells(cell: char, count: nat) -> Seq<char> {
    Seq::new(count, |i: int| cell)
}

/// The bar with its first `filled` cells filled, between square brackets.
pub open spec fn spec_bar(filled: nat) -> Seq<char>
    recommends
        filled <= BAR_LENGTH,
{
    seq!['['] + spec_cells(FILLED_CELL, filled) + spec_cells(
        EMPTY_CELL,
        (BAR_LENGTH - filled) as nat,
    ) + seq![']']
}

/// The whole progress line: carriage return, bar, elapsed clock, total clock.
pub open spec fn spec_progress_line(filled: nat, played: nat, duration: nat) -> Seq<char> {
    seq!['\r'] + spec_bar(filled) + seq![' '] + spec_clock(played) + seq![' ', '/', ' ']
        + spec_clock(duration)
}

/// The number that a decimal digit stands for; 0 for any other character.
pub open spec fn spec_digit_value(c: char) -> nat {
    if c == '1' {
        1
    } else if c == '2' {
        2
    } else if c == '3' {
        3
    } else if c == '4' {
        4
    } else if c == '5' {
        5
    } else if c == '6' {
        6
    } else if c == '7' {
        7
    } else if c == '8' {
        8
    } else if c == '9' {
        9
    } else {
        0
    }
}

/// The number that a text of decimal digits stands for.
pub open spec fn spec_decimal_value(text: Seq<char>) -> nat
    decreases text.len(),
{
    if text.len() == 0 {
        0
    } else {
        spec_decimal_value(text.drop_last()) * 10 + spec_digit_value(text.last())
    }
}

/// Whether `c` is one of the ten decimal digits.
pub open spec fn spec_is_digit(c: char) -> bool {
    exists|d: nat| d < 10 && c == spec_digit(d)
}

/// The decimal text of a number is made of digits only, has no leading zero
/// but for the number 0 itself, and reads back as the number.
pub proof fn lemma_decimal_reads_back(n: nat)
    ensures
        spec_decimal(n).len() >= 1,
        forall|i: int| 0 <= i < spec_decimal(n).len() ==> spec_is_digit(#[trigger] spec_decimal(n)[i]),
        n > 0 ==> spec_decimal(n)[0] != '0',
        spec_decimal_value(spec_decimal(n)) == n,
    decreases n,
{
    if n < 10 {
        assert(spec_is_digit(spec_digit(n)));
        assert(spec_decimal(n).drop_last() =~= Seq::<char>::empty());
        assert(spec_decimal_value(Seq::<char>::empty()) == 0);
    } else {
        lemma_decimal_reads_back(n / 10);
        let head = spec_decimal(n / 10);
        let text = spec_decimal(n);
        assert(text.drop_last() =~= head);
        assert(spec_is_digit(spec_digit(n % 10)));
        assert forall|i: int| 0 <= i < text.len() implies spec_is_digit(#[trigger] text[i]) by {
            if i < head.len() {
                assert(text[i] == head[i]);
            }
        }
        assert(text[0] == head[0]);
    }
}

/// A clock text ends in a colon and exactly two digits of seconds.
pub proof fn lemma_clock_shape(seconds: nat)
    ensures
        spec_clock(seconds).len() >= 5,
        spec_clock(seconds)[spec_clock(seconds).len() - 3] == ':',
        spec_clock(seconds).subrange(
            spec_clock(seconds).len() - 2,
            spec_clock(seconds).len() as int,
        ) == spec_two_digits(seconds % 60),
        spec_two_digits(seconds % 60).len() == 2,
{
    let minutes = seconds / 60;
    lemma_decimal_reads_back(minutes);
    if minutes >= 10 {
        lemma_decimal_reads_back(minutes / 10);
    }
    assert(spec_two_digits(minutes).len() >= 2);
    let tail = seconds % 60;
    if tail >= 10 {
        reveal_with_fuel(spec_decimal, 3);
        assert(tail / 10 < 10);
        assert(spec_decimal(tail).len() == 2);
    }
    assert(spec_two_digits(tail).len() == 2);
    let clock = spec_clock(seconds);
    assert(clock.subrange(clock.len() - 2, clock.len() as int) =~= spec_two_digits(tail));
}

/// The bar is always `BAR_LENGTH` cells between two brackets: the filled cells
/// first, the empty ones after them.
pub proof fn lemma_bar_shape(filled: nat)
    requires
        filled <= BAR_LENGTH,
    ensures
        spec_bar(filled).len() == BAR_LENGTH + 2,
        spec_bar(filled)[0] == '[',
        spec_bar(filled)[BAR_LENGTH + 1] == ']',
        forall|i: int| 1 <= i <= filled ==> #[trigger] spec_bar(filled)[i] == FILLED_CELL,
        forall|i: int| filled < i <= BAR_LENGTH ==> #[trigger] spec_bar(filled)[i] == EMPTY_CELL,
{
}

fn digit_text(d: u32) -> (text: &'static str)
    requires
        d < 10,
    ensures
        text@ == seq![spec_digit(d as nat)],
{
    proof {
        reveal_strlit("0");
        reveal_strlit("1");
        reveal_strlit("2");
        reveal_strlit("3");
        reveal_strlit("4");
        reveal_strlit("5");
        reveal_strlit("6");
        reveal_strlit("7");
        reveal_strlit("8");
        reveal_strlit("9");
    }
    let text = if d == 0 {
        "0"
    } else if d == 1 {
        "1"
    } else if d == 2 {
        "2"
    } else if d == 3 {
        "3"
    } else if d == 4 {
        "4"
    } else if d == 5 {
        "5"
    } else if d == 6 {
        "6"
    } else if d == 7 {
        "7"
    } else if d == 8 {
        "8"
    } else {
        "9"
    };
    assert(text@ =~= seq![spec_digit(d as nat)]);
    text
}

/// Writes `n` in decimal.
pub fn decimal_text(n: u32) -> (text: String)
    ensures
        text@ == spec_decimal(n as nat),
    decreases n,
{
    if n < 10 {
        String::from_str(digit_text(n))
    } else {
        let mut text = decimal_text(n / 10);
        text.append(digit_text(n % 10));
        assert(text@ =~= spec_decimal(n as nat));
        text
    }
}

/// Writes `n` in decimal with at least two digits.
pub fn two_digit_text(n: u32) -> (text: String)
    ensures
        text@ == spec_two_digits(n as nat),
{
    if n < 10 {
        proof {
            reveal_strlit("0");
        }
        let mut text = String::from_str("0");
        text.append(digit_text(n));
        assert(text@ =~= spec_two_digits(n as nat));
        text
    } else {
        decimal_text(n)
    }
}

/// Writes `seconds` as a clock of minutes and seconds.
pub fn clock_text(seconds: u32) -> (text: String)
    ensures
        text@ == spec_clock(seconds as nat),
{
    proof {
        reveal_strlit(":");
    }
    let mut text = two_digit_text(seconds / 60);
    text.append(":");
    let tail = two_digit_text(seconds % 60);
    text.append(tail.as_str());
    assert(text@ =~= spec_clock(seconds as nat));
    text
}

fn push_cells(text: &mut String, cell: &str, count: usize)
    requires
        cell@.len() == 1,
    ensures
        final(text)@ == old(text)@ + spec_cells(cell@[0], count as nat),
{
    let mut done: usize = 0;
    while done < count
        invariant
            done <= count,
            cell@.len() == 1,
            text@ == old(text)@ + spec_cells(cell@[0], done as nat),
        decreases count - done,
    {
        text.append(cell);
        done = done + 1;
        assert(text@ =~= old(text)@ + spec_cells(cell@[0], done as nat));
    }
}

/// Draws the bar with its first `filled` cells filled.
pub fn progress_bar(filled: usize) -> (bar: String)
    requires
        filled <= BAR_LENGTH,
    ensures
        bar@ == spec_bar(filled as nat),
{
    proof {
        reveal_strlit("[");
        reveal_strlit("]");
        reveal_strlit("\u{2588}");
        reveal_strlit("\u{2591}");
    }
    let mut bar = String::from_str("[");
    push_cells(&mut bar, "\u{2588}", filled);
    push_cells(&mut bar, "\u{2591}", BAR_LENGTH - filled);
    bar.append("]");
    assert(bar@ =~= spec_bar(filled as nat));
    bar
}

/// Draws the progress line for a track that is `played` seconds into its
/// `duration` seconds, with `filled` cells of the bar filled.
pub fn progress_line(filled: usize, played: u32, duration: u32) -> (line: String)
    requires
        filled <= BAR_LENGTH,
    ensures
        line@ == spec_progress_line(filled as nat, played as nat, duration as nat),
{
    proof {
        reveal_strlit("\r");
        reveal_strlit(" ");
        reveal_strlit(" / ");
    }
    let mut line = String::from_str("\r");
    let bar = progress_bar(filled);
    line.append(bar.as_str());
    line.append(" ");
    let elapsed = clock_text(played);
    line.append(elapsed.as_str());
    line.append(" / ");
    let total = clock_text(duration);
    line.append(total.as_str());
    assert(line@ =~= spec_progress_line(filled as nat, played as nat, duration as nat));
    line
}

/// What the display does next for the track on air.
#[derive(Debug, PartialEq, Eq)]
pub enum ProgressStep {
    /// The track is still running: draw this line, then look again.
    Draw(String),
    /// The track has reached its end: stop drawing.
    Finished,
}

/// Decides the next step of the progress display.
///
/// While `played` is short of `duration` the line is drawn with `filled` cells
/// filled; from then on the display is finished, whatever `filled` is.
pub fn progress_step(filled: usize, played: u32, duration: u32) -> (step: ProgressStep)
    requires
        played < duration ==> filled <= BAR_LENGTH,
    ensures
        match step {
            ProgressStep::Draw(line) => played < duration && line@ == spec_progress_line(
                filled as nat,
                played as nat,
                duration as nat,
            ),
            ProgressStep::Finished => played >= duration,
        },
{
    if played < duration {
        ProgressStep::Draw(progress_line(filled, played, duration))
    } else {
        ProgressStep::Finished
    }
}

/// Seconds into the track once `elapsed_seconds`, taken to 32 bits, have
/// passed since it stood at `played`.
pub open spec fn spec_position_after(played: u32, elapsed_seconds: u64) -> int {
    played + elapsed_seconds % 0x1_0000_0000
}

/// The playback position after `elapsed_seconds`, or `None` where it does not
/// fit 32 bits.
pub fn position_after(played: u32, elapsed_seconds: u64) -> (position: Option<u32>)
    ensures
        match position {
            Some(now) => now == spec_position_after(played, elapsed_seconds),
            None => spec_position_after(played, elapsed_seconds) > u32::MAX,
        },
{
    let low: u64 = elapsed_seconds % 0x1_0000_0000;
    let elapsed: u32 = low as u32;
    played.checked_add(elapsed)
}

} // verus!
