//! The loading animation that is shown while the buffer fills.

use vstd::prelude::*;
use vstd::string::StringExecFns;

verus! {

/// Number of frames in one turn of the spinner.
pub const FRAME_COUNT: usize = 10;

/// Milliseconds between two frames.
pub const FRAME_MILLIS: u64 = 100;

/// Seconds the animation runs before playback starts.
pub const LOADING_SECONDS: u64 = 10;

/// The frames of the spinner, in the order in which they are shown.
pub open spec fn spec_frames() -> Seq<char> {
    seq![
        '\u{280B}',
        '\u{2819}',
        '\u{2839}',
        '\u{2838}',
        '\u{283C}',
        '\u{2834}',
        '\u{2826}',
        '\u{2827}',
        '\u{2807}',
        '\u{280F}',
    ]
}

/// The frame that is shown at `tick`: the frames repeat in order.
pub open spec fn spec_frame(tick: nat) -> char {
    spec_frames()[(tick % (FRAME_COUNT as nat)) as int]
}

/// The text that is drawn at `tick`.
pub open spec fn spec_loading_text(tick: nat) -> Seq<char> {
    "\rLoading "@.push(spec_frame(tick))
}

/// The text that ends the animation.
pub open spec fn spec_done_text() -> Seq<char> {
    "\rLoading Done!          \n"@
}

/// What the animation does next.
#[derive(Debug, PartialEq, Eq)]
pub enum LoadingStep {
    /// Time is left: draw `text`, pause, and go on at `next_tick`.
    Draw { text: String, next_tick: usize },
    /// Time is up: draw `text` and stop.
    Done { text: String },
}

fn frame_text(tick: usize) -> (text: &'static str)
    ensures
        text@ == seq![spec_frame(tick as nat)],
{
    proof {
        reveal_strlit("\u{280B}");
        reveal_strlit("\u{2819}");
        reveal_strlit("\u{2839}");
        reveal_strlit("\u{2838}");
        reveal_strlit("\u{283C}");
        reveal_strlit("\u{2834}");
        reveal_strlit("\u{2826}");
        reveal_strlit("\u{2827}");
        reveal_strlit("\u{2807}");
        reveal_strlit("\u{280F}");
    }
    let index: usize = tick % FRAME_COUNT;
    let text = if index == 0 {
        "\u{280B}"
    } else if index == 1 {
        "\u{2819}"
    } else if index == 2 {
        "\u{2839}"
    } else if index == 3 {
        "\u{2838}"
    } else if index == 4 {
        "\u{283C}"
    } else if index == 5 {
        "\u{2834}"
    } else if index == 6 {
        "\u{2826}"
    } else if index == 7 {
        "\u{2827}"
    } else if index == 8 {
        "\u{2807}"
    } else {
        "\u{280F}"
    };
    assert(text@ =~= seq![spec_frame(tick as nat)]);
    text
}

/// Writes the text that is drawn at `tick`.
pub fn loading_text(tick: usize) -> (text: String)
    ensures
        text@ == spec_loading_text(tick as nat),
{
    let mut text = String::from_str("\rLoading ");
    text.append(frame_text(tick));
    assert(text@ =~= spec_loading_text(tick as nat));
    text
}

/// Decides the next step of the animation from the time that has passed.
///
/// While less than `duration_nanos` have elapsed, the frame of `tick` is drawn
/// and the tick moves on by one; after that the closing text is drawn.
pub fn loading_step(tick: usize, elapsed_nanos: u128, duration_nanos: u128) -> (step: LoadingStep)
    requires
        elapsed_nanos < duration_nanos ==> tick < usize::MAX,
    ensures
        match step {
            LoadingStep::Draw { text, next_tick } => elapsed_nanos < duration_nanos && text@
                == spec_loading_text(tick as nat) && next_tick == tick + 1,
            LoadingStep::Done { text } => elapsed_nanos >= duration_nanos && text@
                == spec_done_text(),
        },
{
    if elapsed_nanos < duration_nanos {
        LoadingStep::Draw { text: loading_text(tick), next_tick: tick + 1 }
    } else {
        LoadingStep::Done { text: String::from_str("\rLoading Done!          \n") }
    }
}

} // verus!
