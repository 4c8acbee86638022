//! Choosing the modes of the firmware's console and display.

use vstd::prelude::*;

verus! {

/// The size of a text mode, as the firmware answers a query for it.
#[derive(Clone, Copy, Debug, PartialEq, Eq, Structural)]
pub struct TextMode {
    /// Characters in a line.
    pub columns: usize,
    /// Lines on the screen.
    pub rows: usize,
}

/// The best mode among those looked at so far.
pub struct Best {
    /// Its number; none while no query has succeeded.
    pub index: Option<int>,
    /// Its size; zero by zero while no query has succeeded.
    pub size: TextMode,
}

/// The best among the first `count` modes. Going through the modes in order,
/// a mode becomes the best when it has at least as many columns and at least
/// as many rows as the best before it. A mode whose query failed is passed
/// over.
pub open spec fn best_of(modes: Seq<Option<TextMode>>, count: nat) -> Best
    decreases count,
{
    if count == 0 {
        Best { index: None, size: TextMode { columns: 0, rows: 0 } }
    } else {
        let before = best_of(modes, (count - 1) as nat);
        match modes[count - 1] {
            Some(mode) => if mode.columns >= before.size.columns && mode.rows >= before.size.rows {
                Best { index: Some(count - 1), size: mode }
            } else {
                before
            },
            None => before,
        }
    }
}

/// The best mode has a number as soon as one query has succeeded, and then
/// it is the number of a mode whose query succeeded and whose size is the
/// best size.
pub proof fn lemma_best_of(modes: Seq<Option<TextMode>>, count: nat)
    requires
        count <= modes.len(),
    ensures
        match best_of(modes, count).index {
            Some(index) => 0 <= index < count && modes[index] == Some(best_of(modes, count).size),
            None => best_of(modes, count).size == (TextMode { columns: 0, rows: 0 }) && forall|
                i: int,
            | 0 <= i < count ==> modes[i] is None,
        },
    decreases count,
{
    if count > 0 {
        lemma_best_of(modes, (count - 1) as nat);
    }
}

/// Picks the console mode to set, given the answer to the size query for
/// each mode number from 0 on, `None` where the query failed. Returns the
/// number of the best mode as [`best_of`] defines it, or `None` if no query
/// succeeded; no mode is set then.
pub fn set_max_mode(modes: &[Option<TextMode>]) -> (chosen: Option<usize>)
    ensures
        match chosen {
            Some(index) => best_of(modes@, modes@.len()).index == Some(index as int) && index
                < modes.len() && modes@[index as int] is Some,
            None => best_of(modes@, modes@.len()).index is None && forall|i: int|
                0 <= i < modes@.len() ==> modes@[i] is None,
        },
{
    let mut max_i: Option<usize> = None;
    let mut max_w: usize = 0;
    let mut max_h: usize = 0;
    let mut i: usize = 0;
    while i < modes.len()
        invariant
            i <= modes.len(),
            best_of(modes@, i as nat).size == (TextMode { columns: max_w, rows: max_h }),
            match max_i {
                Some(index) => best_of(modes@, i as nat).index == Some(index as int),
                None => best_of(modes@, i as nat).index is None,
            },
        decreases modes.len() - i,
    {
        match modes[i] {
            Some(mode) => {
                if mode.columns >= max_w && mode.rows >= max_h {
                    max_i = Some(i);
                    max_w = mode.columns;
                    max_h = mode.rows;
                }
            },
            None => {},
        }
        i += 1;
    }
    proof {
        lemma_best_of(modes@, modes@.len());
    }
    max_i
}

/// What to do after the user has answered the question whether a display
/// mode is right.
#[derive(Clone, Copy, Debug, PartialEq, Eq, Structural)]
pub enum Prompt {
    /// Set this mode.
    Chosen(u32),
    /// Show this mode and ask again.
    Ask(u32),
}

/// The mode to show after `mode`: the next one, and the first one again
/// after the last of `max_mode` modes.
pub open spec fn mode_after(mode: u32, max_mode: u32) -> u32 {
    if mode + 1 < max_mode {
        (mode + 1) as u32
    } else {
        0
    }
}

/// Takes the user's answer to display mode `mode`, one of `max_mode` modes
/// that are shown in turn until one is accepted.
pub fn select_mode(mode: u32, max_mode: u32, accepted: bool) -> (prompt: Prompt)
    ensures
        prompt == if accepted {
            Prompt::Chosen(mode)
        } else {
            Prompt::Ask(mode_after(mode, max_mode))
        },
{
    if accepted {
        Prompt::Chosen(mode)
    } else if mode < u32::MAX && mode + 1 < max_mode {
        Prompt::Ask(mode + 1)
    } else {
        Prompt::Ask(0)
    }
}

} // verus!
