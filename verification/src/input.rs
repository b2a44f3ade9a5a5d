//! When the window closes: the Escape key, pressed.

use vstd::prelude::*;

verus! {

/// The window system's code of the Escape key.
pub const KEY_ESCAPE: i32 = 256;

/// What happened to a key.
#[derive(Clone, Copy, Debug, PartialEq, Eq, Structural)]
pub enum KeyAction {
    Release,
    Press,
    Repeat,
}

/// An event of the window, as far as the renderer reads it.
#[derive(Clone, Copy, Debug, PartialEq, Eq, Structural)]
pub enum WindowInput {
    /// A key, by the window system's code, and what happened to it.
    Key { key: i32, action: KeyAction },
    /// Any other event.
    Other,
}

/// Whether `input` asks for the window to close: it is a press of Escape.
pub open spec fn asks_to_close(input: WindowInput) -> bool {
    input == (WindowInput::Key { key: KEY_ESCAPE, action: KeyAction::Press })
}

/// Whether the window is closing once `inputs` have been handled, where
/// `closing` says whether it was closing before: nothing reopens it, and one
/// press of Escape closes it.
pub open spec fn closing_after(closing: bool, inputs: Seq<WindowInput>) -> bool {
    closing || exists|i: int| 0 <= i < inputs.len() && asks_to_close(#[trigger] inputs[i])
}

/// Tells whether one event asks for the window to close.
pub fn requests_close(input: &WindowInput) -> (close: bool)
    ensures
        close == asks_to_close(*input),
{
    match input {
        WindowInput::Key { key, action: KeyAction::Press } => *key == KEY_ESCAPE,
        _ => false,
    }
}

/// Handles the events of one frame, in order, and says whether the window is
/// closing afterwards.
pub fn should_close_after(closing: bool, inputs: &Vec<WindowInput>) -> (close: bool)
    ensures
        close == closing_after(closing, inputs@),
{
    let mut close: bool = closing;
    let mut i: usize = 0;
    while i < inputs.len()
        invariant
            i <= inputs.len(),
            close == closing_after(closing, inputs@.take(i as int)),
        decreases inputs.len() - i,
    {
        let asked = requests_close(&inputs[i]);
        proof {
            let before = inputs@.take(i as int);
            let after = inputs@.take(i + 1);
            assert(after[i as int] == inputs@[i as int]);
            if closing_after(closing, before) && !closing {
                let j = choose|j: int| 0 <= j < before.len() && asks_to_close(before[j]);
                assert(asks_to_close(after[j]));
            }
            if closing_after(closing, after) && !closing && !asked {
                let j = choose|j: int| 0 <= j < after.len() && asks_to_close(after[j]);
                assert(asks_to_close(before[j]));
            }
        }
        if asked {
            close = true;
        }
        i += 1;
    }
    proof {
        assert(inputs@.take(i as int) =~= inputs@);
    }
    close
}

/// Frames compose: handling `first` and then `second`, each from the state
/// that the one before left, closes the window exactly when handling all of
/// them at once does.
pub proof fn closing_after_frames(closing: bool, first: Seq<WindowInput>, second: Seq<WindowInput>)
    ensures
        closing_after(closing_after(closing, first), second) == closing_after(
            closing,
            first + second,
        ),
{
    let all = first + second;
    if closing_after(closing_after(closing, first), second) && !closing {
        if closing_after(closing, first) {
            let j = choose|j: int| 0 <= j < first.len() && asks_to_close(first[j]);
            assert(asks_to_close(all[j]));
        } else {
            let j = choose|j: int| 0 <= j < second.len() && asks_to_close(second[j]);
            assert(asks_to_close(all[first.len() + j]));
        }
    }
    if closing_after(closing, all) && !closing {
        let j = choose|j: int| 0 <= j < all.len() && asks_to_close(all[j]);
        if j < first.len() {
            assert(asks_to_close(first[j]));
        } else {
            assert(asks_to_close(second[j - first.len()]));
        }
    }
}

/// A closing window stays closing, whatever events follow.
pub proof fn closing_is_final(inputs: Seq<WindowInput>)
    ensures
        closing_after(true, inputs),
{
}

/// Without events nothing changes.
pub proof fn closing_after_nothing(closing: bool)
    ensures
        closing_after(closing, Seq::empty()) == closing,
{
}

} // verus!
