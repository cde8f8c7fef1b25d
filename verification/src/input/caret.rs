//! Caret visibility and the decisions of its blink timer.
//!
//! The host runs the timer: when a decision says to start blinking it spawns a loop that
//! waits one blink interval, calls `CaretBlink::tick` with the generation it was started
//! with, and stops as soon as `tick` answers `false`.
use vstd::prelude::*;

verus! {

/// The caret is drawn: the editor is focused, nothing is selected and the text can be edited.
pub fn caret_is_visible(focused: bool, selection_empty: bool, disabled: bool, read_only: bool) -> (r:
    bool)
    ensures
        r == (focused && selection_empty && !disabled && !read_only),
{
    focused && selection_empty && !disabled && !read_only
}

/// A visible caret blinks unless a composition is in progress or motion is reduced.
pub fn caret_should_blink(visible: bool, composing: bool, reduce_motion: bool) -> (r: bool)
    ensures
        r == (visible && !composing && !reduce_motion),
{
    visible && !composing && !reduce_motion
}

/// The generation that follows `g`, wrapping at the top of the range.
pub open spec fn next_generation(g: u64) -> u64 {
    if g == u64::MAX {
        0
    } else {
        (g + 1) as u64
    }
}

/// What the host does after a blink decision.
#[derive(Clone, Copy, Debug, PartialEq, Eq, Structural)]
pub enum CaretBlinkAction {
    /// Nothing to start.
    Idle,
    /// Start a blink loop that ticks with this generation.
    Start(u64),
}

/// State of the caret's blink: the generation that the running blink loop must carry,
/// whether such a loop runs, and whether the caret is in its visible phase.
#[derive(Clone, Copy, Debug, PartialEq, Eq, Structural)]
pub struct CaretBlink {
    /// Generation of the current blink loop; a loop with another generation is stale.
    pub generation: u64,
    /// A blink loop of the current generation is running.
    pub running: bool,
    /// The caret is in its visible phase.
    pub phase_visible: bool,
}

impl CaretBlink {
    /// A caret that does not blink and is shown.
    pub fn new() -> (r: CaretBlink)
        ensures
            r == (CaretBlink { generation: 0, running: false, phase_visible: true }),
    {
        CaretBlink { generation: 0, running: false, phase_visible: true }
    }

    /// Brings the blink loop in line with whether the caret should blink.
    ///
    /// When it should not, a running loop is made stale and the caret is shown; when it
    /// should and no loop runs, one is started with the current generation.
    pub fn sync(&mut self, should_blink: bool) -> (action: CaretBlinkAction)
        ensures
            !should_blink ==> *final(self) == (CaretBlink {
                generation: if old(self).running {
                    next_generation(old(self).generation)
                } else {
                    old(self).generation
                },
                running: false,
                phase_visible: true,
            }) && action == CaretBlinkAction::Idle,
            should_blink && old(self).running ==> *final(self) == *old(self) && action
                == CaretBlinkAction::Idle,
            should_blink && !old(self).running ==> *final(self) == (CaretBlink {
                running: true,
                ..*old(self)
            }) && action == CaretBlinkAction::Start(old(self).generation),
    {
        if !should_blink {
            if self.running {
                self.running = false;
                self.generation = if self.generation == u64::MAX {
                    0
                } else {
                    self.generation + 1
                };
            }
            self.phase_visible = true;
            return CaretBlinkAction::Idle;
        }
        if self.running {
            return CaretBlinkAction::Idle;
        }
        self.running = true;
        CaretBlinkAction::Start(self.generation)
    }

    /// Restarts the blink after the caret moved: any running loop becomes stale, the caret
    /// is shown, and a new loop starts if the caret should blink.
    pub fn restart(&mut self, should_blink: bool) -> (action: CaretBlinkAction)
        ensures
            *final(self) == restarted(*old(self), should_blink),
            action == (if should_blink {
                CaretBlinkAction::Start(next_generation(old(self).generation))
            } else {
                CaretBlinkAction::Idle
            }),
    {
        self.generation = if self.generation == u64::MAX {
            0
        } else {
            self.generation + 1
        };
        self.running = false;
        self.phase_visible = true;
        self.sync(should_blink)
    }

    /// One blink interval of the loop started with `generation` has passed: a current loop
    /// flips the phase and goes on; a stale one changes nothing and stops.
    pub fn tick(&mut self, generation: u64) -> (keep_blinking: bool)
        ensures
            (keep_blinking, *final(self)) == ticked(*old(self), generation),
    {
        if generation != self.generation {
            return false;
        }
        self.phase_visible = !self.phase_visible;
        true
    }
}

/// The blink state after a restart.
pub open spec fn restarted(c: CaretBlink, should_blink: bool) -> CaretBlink {
    CaretBlink {
        generation: next_generation(c.generation),
        running: should_blink,
        phase_visible: true,
    }
}

/// The answer and the blink state after a tick of the loop started with `generation`.
pub open spec fn ticked(c: CaretBlink, generation: u64) -> (bool, CaretBlink) {
    if generation == c.generation {
        (true, CaretBlink { phase_visible: !c.phase_visible, ..c })
    } else {
        (false, c)
    }
}

/// After a restart, a tick of the loop that ran before changes nothing and stops that
/// loop, while the loop the restart started keeps blinking.
pub proof fn lemma_restart_makes_old_loop_stale(c: CaretBlink, should_blink: bool)
    ensures
        ticked(restarted(c, should_blink), c.generation) == (false, restarted(c, should_blink)),
        ticked(restarted(c, should_blink), next_generation(c.generation)).0,
{
}

} // verus!
