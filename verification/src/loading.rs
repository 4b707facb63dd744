//! The animation shown while a list loads in the background.
use vstd::prelude::*;

use crate::keys::{cancels, is_cancel, Key};
use crate::text::{owned, push_char, push_str};

verus! {

/// The number of frames of the animation.
pub const FRAME_COUNT: usize = 6;

/// The frame shown at step `i` of the animation (`i < 6`).
pub open spec fn frame_seq(i: int) -> Seq<char> {
    if i == 0 {
        "[.  ]"@
    } else if i == 1 {
        "[.. ]"@
    } else if i == 2 {
        "[...]"@
    } else if i == 3 {
        "[.. ]"@
    } else if i == 4 {
        "[.  ]"@
    } else {
        "[   ]"@
    }
}

/// The frame for a frame counter; the animation repeats every six frames.
pub fn frame(frame_index: usize) -> (r: &'static str)
    ensures
        r@ == frame_seq(frame_index as int % 6),
{
    let i = frame_index % FRAME_COUNT;
    if i == 0 {
        "[.  ]"
    } else if i == 1 {
        "[.. ]"
    } else if i == 2 {
        "[...]"
    } else if i == 3 {
        "[.. ]"
    } else if i == 4 {
        "[.  ]"
    } else {
        "[   ]"
    }
}

/// The animated line: the loading text and the frame.
pub open spec fn frame_line_seq(loading_text: Seq<char>, frame_index: int) -> Seq<char> {
    loading_text + seq![' '] + frame_seq(frame_index % 6)
}

/// The animated line for a frame counter.
pub fn frame_line(loading_text: &str, frame_index: usize) -> (r: String)
    ensures
        r@ == frame_line_seq(loading_text@, frame_index as int),
{
    let mut r = owned(loading_text);
    push_char(&mut r, ' ');
    push_str(&mut r, frame(frame_index));
    r
}

/// The frame counter after one step; it wraps around.
pub fn next_frame(frame_index: usize) -> (r: usize)
    ensures
        r == if frame_index == usize::MAX {
            0
        } else {
            frame_index + 1
        },
{
    frame_index.wrapping_add(1)
}

/// Whether a key press cancels the loading (Esc or Ctrl+C).
pub fn cancels_loading(key: Key) -> (r: bool)
    ensures
        r == is_cancel(key),
{
    cancels(key)
}

} // verus!
