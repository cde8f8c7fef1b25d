//! Tooltips: placement, and the state machine of a tooltip's trigger, which decides when
//! the tooltip shows, fades and hides as the pointer, the keyboard focus, the controlled
//! open state and Escape act on it.
//!
//! The host runs the timers and the overlay. After each event it compares the trigger's
//! state with what it runs: it starts a show-delay timer for `generation` while
//! `delay_pending`, a close-grace timer for `close_generation` while `close_pending`, an
//! enter or exit timer for `generation` while `transition_pending` (by `phase`), keeps the
//! overlay while `view`, and listens for Escape while `escape_listening`. A timer reports
//! back with the generation it was started for; stale reports change nothing.
use vstd::prelude::*;

verus! {

/// Where a tooltip goes relative to its trigger.
#[derive(Clone, Copy, Debug, PartialEq, Eq, Structural)]
pub enum TooltipPlacement {
    /// Above, left edges aligned.
    TopStart,
    /// Above, centred.
    Top,
    /// Above, right edges aligned.
    TopEnd,
    /// Right, top edges aligned.
    RightStart,
    /// Right, centred.
    Right,
    /// Right, bottom edges aligned.
    RightEnd,
    /// Below, left edges aligned.
    BottomStart,
    /// Below, centred; the default.
    Bottom,
    /// Below, right edges aligned.
    BottomEnd,
    /// Left, top edges aligned.
    LeftStart,
    /// Left, centred.
    Left,
    /// Left, bottom edges aligned.
    LeftEnd,
}

/// A side of the trigger.
#[derive(Clone, Copy, Debug, PartialEq, Eq, Structural)]
pub enum Side {
    /// Above.
    Top,
    /// To the right.
    Right,
    /// Below.
    Bottom,
    /// To the left.
    Left,
}

/// Alignment along the side.
#[derive(Clone, Copy, Debug, PartialEq, Eq, Structural)]
pub enum Alignment {
    /// Start edges aligned.
    Start,
    /// Centred.
    Center,
    /// End edges aligned.
    End,
}

/// The side of a placement.
pub open spec fn side_of(p: TooltipPlacement) -> Side {
    match p {
        TooltipPlacement::TopStart | TooltipPlacement::Top | TooltipPlacement::TopEnd => Side::Top,
        TooltipPlacement::RightStart | TooltipPlacement::Right | TooltipPlacement::RightEnd => Side::Right,
        TooltipPlacement::BottomStart | TooltipPlacement::Bottom | TooltipPlacement::BottomEnd => Side::Bottom,
        TooltipPlacement::LeftStart | TooltipPlacement::Left | TooltipPlacement::LeftEnd => Side::Left,
    }
}

/// The alignment of a placement.
pub open spec fn alignment_of(p: TooltipPlacement) -> Alignment {
    match p {
        TooltipPlacement::TopStart | TooltipPlacement::RightStart | TooltipPlacement::BottomStart
        | TooltipPlacement::LeftStart => Alignment::Start,
        TooltipPlacement::Top | TooltipPlacement::Right | TooltipPlacement::Bottom
        | TooltipPlacement::Left => Alignment::Center,
        TooltipPlacement::TopEnd | TooltipPlacement::RightEnd | TooltipPlacement::BottomEnd
        | TooltipPlacement::LeftEnd => Alignment::End,
    }
}

impl TooltipPlacement {
    /// The side.
    pub fn side(self) -> (r: Side)
        ensures
            r == side_of(self),
    {
        match self {
            TooltipPlacement::TopStart | TooltipPlacement::Top | TooltipPlacement::TopEnd => Side::Top,
            TooltipPlacement::RightStart | TooltipPlacement::Right | TooltipPlacement::RightEnd => Side::Right,
            TooltipPlacement::BottomStart | TooltipPlacement::Bottom | TooltipPlacement::BottomEnd => Side::Bottom,
            TooltipPlacement::LeftStart | TooltipPlacement::Left | TooltipPlacement::LeftEnd => Side::Left,
        }
    }

    /// The alignment.
    pub fn alignment(self) -> (r: Alignment)
        ensures
            r == alignment_of(self),
    {
        match self {
            TooltipPlacement::TopStart | TooltipPlacement::RightStart
            | TooltipPlacement::BottomStart | TooltipPlacement::LeftStart => Alignment::Start,
            TooltipPlacement::Top | TooltipPlacement::Right | TooltipPlacement::Bottom
            | TooltipPlacement::Left => Alignment::Center,
            TooltipPlacement::TopEnd | TooltipPlacement::RightEnd | TooltipPlacement::BottomEnd
            | TooltipPlacement::LeftEnd => Alignment::End,
        }
    }

    /// The placement on `side` with the same alignment.
    pub fn with_side(self, side: Side) -> (r: TooltipPlacement)
        ensures
            side_of(r) == side,
            alignment_of(r) == alignment_of(self),
    {
        match (side, self.alignment()) {
            (Side::Top, Alignment::Start) => TooltipPlacement::TopStart,
            (Side::Top, Alignment::Center) => TooltipPlacement::Top,
            (Side::Top, Alignment::End) => TooltipPlacement::TopEnd,
            (Side::Right, Alignment::Start) => TooltipPlacement::RightStart,
            (Side::Right, Alignment::Center) => TooltipPlacement::Right,
            (Side::Right, Alignment::End) => TooltipPlacement::RightEnd,
            (Side::Bottom, Alignment::Start) => TooltipPlacement::BottomStart,
            (Side::Bottom, Alignment::Center) => TooltipPlacement::Bottom,
            (Side::Bottom, Alignment::End) => TooltipPlacement::BottomEnd,
            (Side::Left, Alignment::Start) => TooltipPlacement::LeftStart,
            (Side::Left, Alignment::Center) => TooltipPlacement::Left,
            (Side::Left, Alignment::End) => TooltipPlacement::LeftEnd,
        }
    }
}

impl Default for TooltipPlacement {
    fn default() -> (r: Self)
        ensures
            r == TooltipPlacement::Bottom,
    {
        TooltipPlacement::Bottom
    }
}

/// The side across the trigger.
pub open spec fn opposite_of(s: Side) -> Side {
    match s {
        Side::Top => Side::Bottom,
        Side::Right => Side::Left,
        Side::Bottom => Side::Top,
        Side::Left => Side::Right,
    }
}

impl Side {
    /// The side across the trigger.
    pub fn opposite(self) -> (r: Side)
        ensures
            r == opposite_of(self),
    {
        match self {
            Side::Top => Side::Bottom,
            Side::Right => Side::Left,
            Side::Bottom => Side::Top,
            Side::Left => Side::Right,
        }
    }
}

/// A placement is determined by its side and alignment, and flipping to the opposite side
/// twice comes back.
pub proof fn lemma_placement_parts(p: TooltipPlacement, q: TooltipPlacement, s: Side)
    ensures
        side_of(p) == side_of(q) && alignment_of(p) == alignment_of(q) ==> p == q,
        opposite_of(opposite_of(s)) == s,
        opposite_of(s) != s,
{
}

/// Where a tooltip's show or hide transition is.
#[derive(Clone, Copy, Debug, PartialEq, Eq, Structural)]
pub enum TransitionPhase {
    /// Not shown.
    Hidden,
    /// Fading in.
    Entering,
    /// Shown.
    Visible,
    /// Fading out.
    Exiting,
}

impl TransitionPhase {
    /// The tooltip is on screen.
    pub fn is_present(self) -> (r: bool)
        ensures
            r == !(self is Hidden),
    {
        match self {
            TransitionPhase::Hidden => false,
            _ => true,
        }
    }
}

/// The generation after `g`, wrapping.
pub open spec fn next_generation(g: u64) -> u64 {
    if g == u64::MAX {
        0
    } else {
        (g + 1) as u64
    }
}

fn bump(g: u64) -> (r: u64)
    ensures
        r == next_generation(g),
{
    if g == u64::MAX {
        0
    } else {
        g + 1
    }
}

/// The state of a tooltip's trigger.
#[derive(Clone, Copy, Debug, PartialEq, Eq, Structural)]
pub struct TooltipTrigger {
    /// The tooltip's controlled open state, if any.
    pub open: Option<bool>,
    /// The tooltip animates its transitions.
    pub animated: bool,
    /// The pointer is over the trigger.
    pub hovered: bool,
    /// The pointer is over the tooltip's bubble.
    pub bubble_hovered: bool,
    /// The trigger has focus from the keyboard.
    pub keyboard_focused: bool,
    /// Escape dismissed the tooltip shown by hovering.
    pub hover_dismissed: bool,
    /// Escape dismissed the tooltip shown by focus.
    pub focus_dismissed: bool,
    /// Escape dismissed the controlled open tooltip.
    pub explicit_dismissed: bool,
    /// The transition phase.
    pub phase: TransitionPhase,
    /// The preferred placement.
    pub placement: TooltipPlacement,
    /// The overlay exists.
    pub view: bool,
    /// Generation of the show delay and of the transitions.
    pub generation: u64,
    /// Generation of the close grace.
    pub close_generation: u64,
    /// A show delay of the current generation runs.
    pub delay_pending: bool,
    /// A close grace of the current close generation runs.
    pub close_pending: bool,
    /// An enter or exit transition of the current generation runs.
    pub transition_pending: bool,
    /// Escape is listened for.
    pub escape_listening: bool,
}

/// The pointer is over the trigger or the bubble.
pub open spec fn pointer_hovered(s: TooltipTrigger) -> bool {
    s.hovered || s.bubble_hovered
}

/// The tooltip should be shown: it is controlled open and not dismissed, or it is not
/// controlled and hovered or keyboard-focused without having been dismissed.
pub open spec fn eligible(s: TooltipTrigger) -> bool {
    match s.open {
        Some(true) => !s.explicit_dismissed,
        Some(false) => false,
        None => (pointer_hovered(s) && !s.hover_dismissed) || (s.keyboard_focused
            && !s.focus_dismissed),
    }
}

/// The tooltip is fading in or shown.
pub open spec fn showing(p: TransitionPhase) -> bool {
    p is Entering || p is Visible
}

/// Stops the close grace.
pub open spec fn close_grace_cancelled(s: TooltipTrigger) -> TooltipTrigger {
    if s.close_pending {
        TooltipTrigger {
            close_pending: false,
            close_generation: next_generation(s.close_generation),
            ..s
        }
    } else {
        s
    }
}

/// Starts the close grace, which keeps a dismissal alive a moment after the pointer and
/// focus leave, unless the tooltip is controlled, still hovered or focused, already in
/// grace, or neither present nor dismissed.
pub open spec fn close_grace_scheduled(s: TooltipTrigger) -> TooltipTrigger {
    if s.open is Some || pointer_hovered(s) || s.keyboard_focused || s.close_pending || (s.phase is Hidden
        && !s.hover_dismissed) {
        s
    } else {
        TooltipTrigger {
            close_generation: next_generation(s.close_generation),
            close_pending: true,
            ..s
        }
    }
}

/// Starts the show delay of an eligible, uncontrolled, hidden or exiting tooltip.
pub open spec fn show_scheduled(s: TooltipTrigger) -> TooltipTrigger {
    if showing(s.phase) || s.delay_pending || !eligible(s) || s.open is Some {
        s
    } else {
        TooltipTrigger { generation: next_generation(s.generation), delay_pending: true, ..s }
    }
}

/// Shows the tooltip now, fading in when animated and motion is not reduced.
pub open spec fn shown_now(s: TooltipTrigger, reduce_motion: bool) -> TooltipTrigger {
    let entering = s.animated && !reduce_motion;
    TooltipTrigger {
        generation: next_generation(s.generation),
        delay_pending: false,
        transition_pending: entering,
        phase: if entering {
            TransitionPhase::Entering
        } else {
            TransitionPhase::Visible
        },
        view: true,
        ..close_grace_cancelled(s)
    }
}

/// Brings an exiting tooltip back to shown.
pub open spec fn restored(s: TooltipTrigger) -> TooltipTrigger {
    TooltipTrigger {
        generation: next_generation(s.generation),
        delay_pending: false,
        transition_pending: false,
        phase: TransitionPhase::Visible,
        ..close_grace_cancelled(s)
    }
}

/// The tooltip is gone: no overlay, no bubble hover, and a close grace if one applies.
pub open spec fn gone(s: TooltipTrigger) -> TooltipTrigger {
    close_grace_scheduled(
        TooltipTrigger {
            phase: TransitionPhase::Hidden,
            view: false,
            bubble_hovered: false,
            transition_pending: false,
            ..s
        },
    )
}

/// Hides the tooltip: at once when not animated or motion is reduced, else by fading out.
#[verifier::opaque]
pub open spec fn hidden(s: TooltipTrigger, reduce_motion: bool) -> TooltipTrigger {
    let s1 = close_grace_cancelled(s);
    if s1.phase is Exiting {
        s1
    } else if s1.phase is Hidden {
        if s1.delay_pending {
            TooltipTrigger {
                generation: next_generation(s1.generation),
                delay_pending: false,
                ..s1
            }
        } else {
            s1
        }
    } else {
        let s2 = TooltipTrigger {
            generation: next_generation(s1.generation),
            delay_pending: false,
            transition_pending: false,
            ..s1
        };
        if !s.animated || reduce_motion {
            gone(s2)
        } else {
            TooltipTrigger { phase: TransitionPhase::Exiting, transition_pending: true, ..s2 }
        }
    }
}

/// Brings the phase in line with eligibility.
#[verifier::opaque]
pub open spec fn reconciled(s: TooltipTrigger, reduce_motion: bool) -> TooltipTrigger {
    if eligible(s) {
        let s1 = close_grace_cancelled(s);
        if s1.open == Some(true) {
            if !showing(s1.phase) {
                shown_now(s1, reduce_motion)
            } else {
                s1
            }
        } else {
            match s1.phase {
                TransitionPhase::Exiting => restored(s1),
                TransitionPhase::Hidden => show_scheduled(s1),
                _ => s1,
            }
        }
    } else if s.open is None && s.close_pending {
        s
    } else {
        let s1 = hidden(s, reduce_motion);
        if s1.open != Some(true) && !pointer_hovered(s1) && !s1.keyboard_focused {
            TooltipTrigger { escape_listening: false, ..s1 }
        } else {
            s1
        }
    }
}

/// Finishes a transition at once when animation is off or motion is reduced.
#[verifier::opaque]
pub open spec fn settled(s: TooltipTrigger, reduce_motion: bool) -> TooltipTrigger {
    if s.animated && !reduce_motion {
        s
    } else {
        match s.phase {
            TransitionPhase::Entering => TooltipTrigger {
                generation: next_generation(s.generation),
                transition_pending: false,
                phase: TransitionPhase::Visible,
                ..s
            },
            TransitionPhase::Exiting => gone(
                TooltipTrigger { generation: next_generation(s.generation), ..s },
            ),
            _ => s,
        }
    }
}

/// The state after the tooltip's settings are (re)applied.
#[verifier::opaque]
pub open spec fn tooltip_updated(s: TooltipTrigger, open: Option<bool>, animated: bool, reduce_motion: bool) -> TooltipTrigger {
    let s1 = TooltipTrigger {
        open,
        animated,
        explicit_dismissed: if s.open != open {
            false
        } else {
            s.explicit_dismissed
        },
        ..s
    };
    let s2 = settled(s1, reduce_motion);
    let s3 = if open == Some(true) {
        TooltipTrigger { escape_listening: true, ..s2 }
    } else {
        s2
    };
    reconciled(s3, reduce_motion)
}

/// The state after the pointer enters or leaves the trigger.
pub open spec fn hover_set(s: TooltipTrigger, hovered: bool, reduce_motion: bool) -> TooltipTrigger {
    if s.hovered == hovered {
        s
    } else {
        let s1 = TooltipTrigger { hovered, ..s };
        let s2 = if hovered {
            TooltipTrigger {
                keyboard_focused: false,
                escape_listening: true,
                ..close_grace_cancelled(s1)
            }
        } else {
            close_grace_scheduled(s1)
        };
        reconciled(s2, reduce_motion)
    }
}

/// The state after the pointer enters or leaves the bubble.
pub open spec fn bubble_hover_set(s: TooltipTrigger, hovered: bool, reduce_motion: bool) -> TooltipTrigger {
    if s.bubble_hovered == hovered {
        s
    } else {
        let s1 = TooltipTrigger { bubble_hovered: hovered, ..s };
        let s2 = if hovered {
            close_grace_cancelled(s1)
        } else {
            close_grace_scheduled(s1)
        };
        reconciled(s2, reduce_motion)
    }
}

/// The state after Escape, and whether Escape was used.
pub open spec fn dismissed(s: TooltipTrigger, reduce_motion: bool) -> (bool, TooltipTrigger) {
    if s.phase is Hidden && !s.delay_pending {
        (false, s)
    } else {
        let s1 = if s.open == Some(true) {
            TooltipTrigger { explicit_dismissed: true, ..s }
        } else {
            let a = if pointer_hovered(s) || s.close_pending {
                TooltipTrigger { hover_dismissed: true, ..s }
            } else {
                s
            };
            if a.keyboard_focused {
                TooltipTrigger { focus_dismissed: true, ..a }
            } else {
                a
            }
        };
        (true, hidden(s1, reduce_motion))
    }
}

impl TooltipTrigger {
    /// A hidden trigger of an uncontrolled, animated tooltip placed below.
    pub fn new() -> (r: TooltipTrigger)
        ensures
            r == (TooltipTrigger {
                open: None,
                animated: true,
                hovered: false,
                bubble_hovered: false,
                keyboard_focused: false,
                hover_dismissed: false,
                focus_dismissed: false,
                explicit_dismissed: false,
                phase: TransitionPhase::Hidden,
                placement: TooltipPlacement::Bottom,
                view: false,
                generation: 0,
                close_generation: 0,
                delay_pending: false,
                close_pending: false,
                transition_pending: false,
                escape_listening: false,
            }),
    {
        TooltipTrigger {
            open: None,
            animated: true,
            hovered: false,
            bubble_hovered: false,
            keyboard_focused: false,
            hover_dismissed: false,
            focus_dismissed: false,
            explicit_dismissed: false,
            phase: TransitionPhase::Hidden,
            placement: TooltipPlacement::Bottom,
            view: false,
            generation: 0,
            close_generation: 0,
            delay_pending: false,
            close_pending: false,
            transition_pending: false,
            escape_listening: false,
        }
    }

    /// The tooltip should be shown.
    pub fn eligible(&self) -> (r: bool)
        ensures
            r == eligible(*self),
    {
        match self.open {
            Some(true) => !self.explicit_dismissed,
            Some(false) => false,
            None => ((self.hovered || self.bubble_hovered) && !self.hover_dismissed) || (
            self.keyboard_focused && !self.focus_dismissed),
        }
    }

    fn cancel_close_grace(&mut self)
        ensures
            *final(self) == close_grace_cancelled(*old(self)),
    {
        if self.close_pending {
            self.close_pending = false;
            self.close_generation = bump(self.close_generation);
        }
    }

    fn schedule_close_grace(&mut self)
        ensures
            *final(self) == close_grace_scheduled(*old(self)),
    {
        let hidden_phase = match self.phase {
            TransitionPhase::Hidden => true,
            _ => false,
        };
        if self.open.is_some() || self.hovered || self.bubble_hovered || self.keyboard_focused
            || self.close_pending || (hidden_phase && !self.hover_dismissed) {
            return;
        }
        self.close_generation = bump(self.close_generation);
        self.close_pending = true;
    }

    fn schedule_show(&mut self)
        ensures
            *final(self) == show_scheduled(*old(self)),
    {
        let showing_now = match self.phase {
            TransitionPhase::Entering | TransitionPhase::Visible => true,
            _ => false,
        };
        if showing_now || self.delay_pending || !self.eligible() || self.open.is_some() {
            return;
        }
        self.generation = bump(self.generation);
        self.delay_pending = true;
    }

    fn show_now(&mut self, reduce_motion: bool)
        ensures
            *final(self) == shown_now(*old(self), reduce_motion),
    {
        self.generation = bump(self.generation);
        self.delay_pending = false;
        self.cancel_close_grace();
        let entering = self.animated && !reduce_motion;
        self.transition_pending = entering;
        self.phase = if entering {
            TransitionPhase::Entering
        } else {
            TransitionPhase::Visible
        };
        self.view = true;
    }

    fn restore_visible(&mut self)
        ensures
            *final(self) == restored(*old(self)),
    {
        self.generation = bump(self.generation);
        self.delay_pending = false;
        self.cancel_close_grace();
        self.transition_pending = false;
        self.phase = TransitionPhase::Visible;
    }

    fn disappear(&mut self)
        ensures
            *final(self) == gone(*old(self)),
    {
        self.phase = TransitionPhase::Hidden;
        self.view = false;
        self.bubble_hovered = false;
        self.transition_pending = false;
        self.schedule_close_grace();
    }

    fn hide_tooltip(&mut self, reduce_motion: bool)
        ensures
            *final(self) == hidden(*old(self), reduce_motion),
    {
        proof {
            reveal(hidden);
        }
        let animated = self.animated;
        self.cancel_close_grace();
        match self.phase {
            TransitionPhase::Exiting => {
                return;
            },
            TransitionPhase::Hidden => {
                if self.delay_pending {
                    self.generation = bump(self.generation);
                    self.delay_pending = false;
                }
                return;
            },
            _ => {},
        }
        self.generation = bump(self.generation);
        self.delay_pending = false;
        self.transition_pending = false;
        if !animated || reduce_motion {
            self.disappear();
            return;
        }
        self.phase = TransitionPhase::Exiting;
        self.transition_pending = true;
    }

    fn reconcile(&mut self, reduce_motion: bool)
        ensures
            *final(self) == reconciled(*old(self), reduce_motion),
    {
        proof {
            reveal(reconciled);
        }
        if self.eligible() {
            self.cancel_close_grace();
            if self.open == Some(true) {
                let showing_now = match self.phase {
                    TransitionPhase::Entering | TransitionPhase::Visible => true,
                    _ => false,
                };
                if !showing_now {
                    self.show_now(reduce_motion);
                }
            } else {
                match self.phase {
                    TransitionPhase::Exiting => self.restore_visible(),
                    TransitionPhase::Hidden => self.schedule_show(),
                    _ => {},
                }
            }
            return;
        }
        if self.open.is_none() && self.close_pending {
            return;
        }
        self.hide_tooltip(reduce_motion);
        if self.open != Some(true) && !self.hovered && !self.bubble_hovered
            && !self.keyboard_focused {
            self.escape_listening = false;
        }
    }

    fn settle_static_transition(&mut self, reduce_motion: bool)
        ensures
            *final(self) == settled(*old(self), reduce_motion),
    {
        proof {
            reveal(settled);
        }
        if self.animated && !reduce_motion {
            return;
        }
        match self.phase {
            TransitionPhase::Entering => {
                self.generation = bump(self.generation);
                self.transition_pending = false;
                self.phase = TransitionPhase::Visible;
            },
            TransitionPhase::Exiting => {
                self.generation = bump(self.generation);
                self.disappear();
            },
            _ => {},
        }
    }

    /// Applies the tooltip's controlled open state and animation setting: a change of the
    /// open state clears an Escape dismissal of the controlled tooltip.
    pub fn update_tooltip(&mut self, open: Option<bool>, animated: bool, reduce_motion: bool)
        ensures
            *final(self) == tooltip_updated(*old(self), open, animated, reduce_motion),
    {
        let ghost s0 = *self;
        let same_open = match (self.open, open) {
            (None, None) => true,
            (Some(a), Some(b)) => a == b,
            _ => false,
        };
        if !same_open {
            self.explicit_dismissed = false;
        }
        self.open = open;
        self.animated = animated;
        let ghost s1 = *self;
        assert(s1 == TooltipTrigger {
            open,
            animated,
            explicit_dismissed: if s0.open != open {
                false
            } else {
                s0.explicit_dismissed
            },
            ..s0
        });
        self.settle_static_transition(reduce_motion);
        let open_true = match open {
            Some(true) => true,
            _ => false,
        };
        if open_true {
            self.escape_listening = true;
        }
        let ghost s3 = *self;
        assert(s3 == (if open == Some(true) {
            TooltipTrigger { escape_listening: true, ..settled(s1, reduce_motion) }
        } else {
            settled(s1, reduce_motion)
        }));
        self.reconcile(reduce_motion);
        proof {
            reveal(tooltip_updated);
            assert(*self == reconciled(s3, reduce_motion));
        }
    }

    /// Sets the preferred placement.
    pub fn update_placement(&mut self, placement: TooltipPlacement)
        ensures
            *final(self) == (TooltipTrigger { placement, ..*old(self) }),
    {
        self.placement = placement;
    }

    /// The pointer entered (`true`) or left the trigger. Entering ends keyboard-focus
    /// eligibility.
    pub fn set_hovered(&mut self, hovered: bool, reduce_motion: bool)
        ensures
            *final(self) == hover_set(*old(self), hovered, reduce_motion),
    {
        if self.hovered == hovered {
            return;
        }
        self.hovered = hovered;
        if hovered {
            self.cancel_close_grace();
            self.keyboard_focused = false;
            self.escape_listening = true;
        } else {
            self.schedule_close_grace();
        }
        self.reconcile(reduce_motion);
    }

    /// The pointer entered or left the bubble.
    pub fn set_bubble_hovered(&mut self, hovered: bool, reduce_motion: bool)
        ensures
            *final(self) == bubble_hover_set(*old(self), hovered, reduce_motion),
    {
        if self.bubble_hovered == hovered {
            return;
        }
        self.bubble_hovered = hovered;
        if hovered {
            self.cancel_close_grace();
        } else {
            self.schedule_close_grace();
        }
        self.reconcile(reduce_motion);
    }

    /// The trigger gained focus, from the keyboard or not.
    pub fn focused(&mut self, from_keyboard: bool, reduce_motion: bool)
        ensures
            ({
                let s1 = TooltipTrigger {
                    keyboard_focused: from_keyboard,
                    focus_dismissed: false,
                    ..*old(self)
                };
                if from_keyboard {
                    *final(self) == reconciled(
                        TooltipTrigger { escape_listening: true, ..s1 },
                        reduce_motion,
                    )
                } else {
                    *final(self) == s1
                }
            }),
    {
        self.keyboard_focused = from_keyboard;
        self.focus_dismissed = false;
        if from_keyboard {
            self.escape_listening = true;
            self.reconcile(reduce_motion);
        }
    }

    /// The trigger lost focus.
    pub fn blurred(&mut self, reduce_motion: bool)
        ensures
            ({
                let s1 = TooltipTrigger {
                    keyboard_focused: false,
                    focus_dismissed: false,
                    ..*old(self)
                };
                let s2 = if s1.hover_dismissed {
                    close_grace_scheduled(s1)
                } else {
                    s1
                };
                *final(self) == reconciled(s2, reduce_motion)
            }),
    {
        self.keyboard_focused = false;
        self.focus_dismissed = false;
        if self.hover_dismissed {
            self.schedule_close_grace();
        }
        self.reconcile(reduce_motion);
    }

    /// The show delay started for `generation` ran out: a current one shows an eligible
    /// uncontrolled tooltip.
    pub fn show_delay_elapsed(&mut self, generation: u64, reduce_motion: bool)
        ensures
            generation != old(self).generation ==> *final(self) == *old(self),
            generation == old(self).generation ==> {
                let s1 = TooltipTrigger { delay_pending: false, ..*old(self) };
                if eligible(s1) && s1.open is None {
                    *final(self) == shown_now(s1, reduce_motion)
                } else {
                    *final(self) == s1
                }
            },
    {
        if self.generation != generation {
            return;
        }
        self.delay_pending = false;
        if self.eligible() && self.open.is_none() {
            self.show_now(reduce_motion);
        }
    }

    /// The close grace started for `close_generation` ran out: unless the tooltip is
    /// controlled, hovered or focused, a hover dismissal ends.
    pub fn close_grace_elapsed(&mut self, close_generation: u64, reduce_motion: bool)
        ensures
            close_generation != old(self).close_generation ==> *final(self) == *old(self),
            close_generation == old(self).close_generation ==> {
                let s1 = TooltipTrigger { close_pending: false, ..*old(self) };
                if s1.open is Some || pointer_hovered(s1) || s1.keyboard_focused {
                    *final(self) == s1
                } else {
                    *final(self) == reconciled(
                        TooltipTrigger { hover_dismissed: false, ..s1 },
                        reduce_motion,
                    )
                }
            },
    {
        if self.close_generation != close_generation {
            return;
        }
        self.close_pending = false;
        if self.open.is_some() || self.hovered || self.bubble_hovered || self.keyboard_focused {
            return;
        }
        self.hover_dismissed = false;
        self.reconcile(reduce_motion);
    }

    /// The enter transition started for `generation` is over.
    pub fn enter_elapsed(&mut self, generation: u64)
        ensures
            generation == old(self).generation && old(self).phase is Entering ==> *final(self)
                == (TooltipTrigger {
                transition_pending: false,
                phase: TransitionPhase::Visible,
                ..*old(self)
            }),
            !(generation == old(self).generation && old(self).phase is Entering) ==> *final(self)
                == *old(self),
    {
        let entering = match self.phase {
            TransitionPhase::Entering => true,
            _ => false,
        };
        if self.generation == generation && entering {
            self.transition_pending = false;
            self.phase = TransitionPhase::Visible;
        }
    }

    /// The exit transition started for `generation` is over.
    pub fn exit_elapsed(&mut self, generation: u64)
        ensures
            generation == old(self).generation && old(self).phase is Exiting ==> *final(self)
                == gone(*old(self)),
            !(generation == old(self).generation && old(self).phase is Exiting) ==> *final(self)
                == *old(self),
    {
        let exiting = match self.phase {
            TransitionPhase::Exiting => true,
            _ => false,
        };
        if self.generation == generation && exiting {
            self.disappear();
        }
    }

    /// Keyboard focus stops counting once the pointer is used elsewhere.
    pub fn sync_input_modality(&mut self, last_input_was_keyboard: bool, reduce_motion: bool)
        ensures
            old(self).keyboard_focused && !old(self).hovered && !last_input_was_keyboard
                ==> *final(self) == reconciled(
                TooltipTrigger { keyboard_focused: false, ..*old(self) },
                reduce_motion,
            ),
            !(old(self).keyboard_focused && !old(self).hovered && !last_input_was_keyboard)
                ==> *final(self) == *old(self),
    {
        if self.keyboard_focused && !self.hovered && !last_input_was_keyboard {
            self.keyboard_focused = false;
            self.reconcile(reduce_motion);
        }
    }

    /// Escape: dismisses a present or pending tooltip and returns whether it did (the host
    /// then stops the key).
    pub fn dismiss(&mut self, reduce_motion: bool) -> (used: bool)
        ensures
            (used, *final(self)) == dismissed(*old(self), reduce_motion),
    {
        let hidden_phase = match self.phase {
            TransitionPhase::Hidden => true,
            _ => false,
        };
        if hidden_phase && !self.delay_pending {
            return false;
        }
        if self.open == Some(true) {
            self.explicit_dismissed = true;
        } else {
            if self.hovered || self.bubble_hovered || self.close_pending {
                self.hover_dismissed = true;
            }
            if self.keyboard_focused {
                self.focus_dismissed = true;
            }
        }
        self.hide_tooltip(reduce_motion);
        true
    }
}

/// A tooltip held closed by its owner is never shown: after any reconciliation it is
/// hidden or fading out.
pub proof fn lemma_controlled_closed_stays_hidden(s: TooltipTrigger, reduce_motion: bool)
    requires
        s.open == Some(false),
    ensures
        reconciled(s, reduce_motion).phase is Hidden || reconciled(s, reduce_motion).phase is Exiting,
{
    reveal(reconciled);
    reveal(hidden);
}

/// A tooltip held open by its owner and not dismissed is shown after reconciliation.
pub proof fn lemma_controlled_open_shows(s: TooltipTrigger, reduce_motion: bool)
    requires
        s.open == Some(true),
        !s.explicit_dismissed,
    ensures
        showing(reconciled(s, reduce_motion).phase),
{
    reveal(reconciled);
    reveal(hidden);
}

/// Escape on a present tooltip is used, leaves the tooltip not eligible, and hides it or
/// fades it out.
pub proof fn lemma_escape_dismisses(s: TooltipTrigger, reduce_motion: bool)
    requires
        !(s.phase is Hidden),
    ensures
        dismissed(s, reduce_motion).0,
        !eligible(dismissed(s, reduce_motion).1),
        dismissed(s, reduce_motion).1.phase is Hidden || dismissed(s, reduce_motion).1.phase is Exiting,
{
    reveal(reconciled);
    reveal(hidden);
}

/// Hovering an uncontrolled, undismissed, hidden tooltip starts its show delay.
pub proof fn lemma_hover_starts_delay(s: TooltipTrigger, reduce_motion: bool)
    requires
        s.open is None,
        !s.hovered,
        !s.hover_dismissed,
        s.phase is Hidden,
        !s.delay_pending,
    ensures
        hover_set(s, true, reduce_motion).delay_pending,
        hover_set(s, true, reduce_motion).phase is Hidden,
        hover_set(s, true, reduce_motion).generation == next_generation(s.generation),
{
    reveal(reconciled);
    reveal(hidden);
}


/// Moving from the trigger into the bubble keeps a shown tooltip: the close grace is
/// cancelled and the tooltip stays visible.
pub proof fn lemma_bubble_keeps_tooltip(s: TooltipTrigger, reduce_motion: bool)
    requires
        s.open is None,
        !s.hover_dismissed,
        !s.bubble_hovered,
        s.phase is Visible,
    ensures
        bubble_hover_set(s, true, reduce_motion).phase is Visible,
        !bubble_hover_set(s, true, reduce_motion).close_pending,
        bubble_hover_set(s, true, reduce_motion).view == s.view,
{
    reveal(reconciled);
    reveal(hidden);
}


/// A tooltip held open by its owner and dismissed with Escape stays closed while it is
/// held open, and shows again once the owner closes it and opens it again.
pub proof fn lemma_escape_holds_until_reopened(s: TooltipTrigger, animated: bool, reduce_motion: bool)
    requires
        s.open == Some(true),
        !(s.phase is Hidden),
    ensures
        !showing(tooltip_updated(dismissed(s, reduce_motion).1, Some(true), animated, reduce_motion).phase),
        showing(
            tooltip_updated(
                tooltip_updated(dismissed(s, reduce_motion).1, Some(false), animated, reduce_motion),
                Some(true),
                animated,
                reduce_motion,
            ).phase,
        ),
{
    reveal(reconciled);
    reveal(hidden);
    reveal(settled);
    reveal(tooltip_updated);
}

/// Both are absent, or both present with the same text and options.
pub open spec fn same_tooltip(a: Option<Tooltip>, b: Option<Tooltip>) -> bool {
    match (a, b) {
        (None, None) => true,
        (Some(x), Some(y)) => x.text@ == y.text@ && x.open == y.open && x.arrow == y.arrow
            && x.animated == y.animated,
        _ => false,
    }
}

/// The content and options of a tooltip; its colours are the host's.
#[derive(Clone, Debug)]
pub struct Tooltip {
    /// The text shown.
    pub text: String,
    /// Held open (`Some(true)`) or closed (`Some(false)`) by its owner; shown on hover and
    /// keyboard focus when `None`.
    pub open: Option<bool>,
    /// An arrow points at the trigger.
    pub arrow: bool,
    /// Showing and hiding are animated.
    pub animated: bool,
}

impl Tooltip {
    /// A plain-text tooltip, shown on demand, with an arrow and animations.
    pub fn new(text: &str) -> (r: Tooltip)
        ensures
            r.text@ == text@,
            r.open is None,
            r.arrow,
            r.animated,
    {
        Tooltip { text: text.to_string(), open: None, arrow: true, animated: true }
    }

    /// Holds the tooltip open or closed.
    pub fn open(self, open: bool) -> (r: Tooltip)
        ensures
            r.open == Some(open),
            r.text == self.text,
            r.arrow == self.arrow,
            r.animated == self.animated,
    {
        Tooltip { open: Some(open), ..self }
    }

    /// Sets whether an arrow is drawn.
    pub fn arrow(self, arrow: bool) -> (r: Tooltip)
        ensures
            r.arrow == arrow,
            r.text == self.text,
            r.open == self.open,
            r.animated == self.animated,
    {
        Tooltip { arrow, ..self }
    }

    /// Sets whether showing and hiding are animated.
    pub fn animated(self, animated: bool) -> (r: Tooltip)
        ensures
            r.animated == animated,
            r.text == self.text,
            r.open == self.open,
            r.arrow == self.arrow,
    {
        Tooltip { animated, ..self }
    }

    /// A copy of this tooltip.
    pub fn duplicate(&self) -> (r: Tooltip)
        ensures
            r.text@ == self.text@,
            r.open == self.open,
            r.arrow == self.arrow,
            r.animated == self.animated,
    {
        Tooltip { text: self.text.clone(), open: self.open, arrow: self.arrow, animated: self.animated }
    }

    /// The text.
    pub fn text_value(&self) -> (r: &str)
        ensures
            r@ == self.text@,
    {
        self.text.as_str()
    }
}

} // verus!
