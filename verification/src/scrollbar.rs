//! Scrollbar configuration and the decisions of a scroll area's scrollbars: when they are
//! shown, faded and hidden, and how hovering, dragging and keys act on them.
//!
//! Geometry and opacity are measured in pixels and fractions by the host; the decisions
//! here take what the host measured (which track or thumb the pointer is over, whether
//! motion is reduced) and answer what the host must do (fade, schedule a hide, apply a
//! drag).
use vstd::prelude::*;

use crate::text::utf::same_text;

verus! {

/// The scroll axes a scroll area enables.
#[derive(Clone, Copy, Debug, PartialEq, Eq, Structural)]
pub enum ScrollAxis {
    /// Vertical scrolling only.
    Vertical,
    /// Horizontal scrolling only.
    Horizontal,
    /// Both axes; the default.
    Both,
}

impl ScrollAxis {
    /// The axis scrolls vertically.
    pub fn has_vertical(self) -> (r: bool)
        ensures
            r == (self is Vertical || self is Both),
    {
        match self {
            ScrollAxis::Vertical | ScrollAxis::Both => true,
            ScrollAxis::Horizontal => false,
        }
    }

    /// The axis scrolls horizontally.
    pub fn has_horizontal(self) -> (r: bool)
        ensures
            r == (self is Horizontal || self is Both),
    {
        match self {
            ScrollAxis::Horizontal | ScrollAxis::Both => true,
            ScrollAxis::Vertical => false,
        }
    }
}

impl Default for ScrollAxis {
    fn default() -> (r: Self)
        ensures
            r == ScrollAxis::Both,
    {
        ScrollAxis::Both
    }
}

/// When the scrollbars are drawn.
#[derive(Clone, Copy, Debug, PartialEq, Eq, Structural)]
pub enum ScrollVisibility {
    /// Shown while the user interacts, hidden after a pause; the default.
    Auto,
    /// Shown whenever the content overflows.
    Always,
    /// Never drawn; the content still scrolls.
    Never,
}

impl Default for ScrollVisibility {
    fn default() -> (r: Self)
        ensures
            r == ScrollVisibility::Auto,
    {
        ScrollVisibility::Auto
    }
}

/// Whether the scrollbars take layout space.
#[derive(Clone, Copy, Debug, PartialEq, Eq, Structural)]
pub enum ScrollGutter {
    /// Drawn over the content; the default.
    Overlay,
    /// Space for the scrollbar's hit area is always reserved.
    Stable,
}

impl Default for ScrollGutter {
    fn default() -> (r: Self)
        ensures
            r == ScrollGutter::Overlay,
    {
        ScrollGutter::Overlay
    }
}

/// Configuration of a scroll area's scrollbars.
#[derive(Clone, Copy, Debug, PartialEq, Eq, Structural)]
pub struct ScrollbarConfig {
    /// The enabled axes.
    pub axis: ScrollAxis,
    /// When the scrollbars are drawn.
    pub visibility: ScrollVisibility,
    /// Whether they take layout space.
    pub gutter: ScrollGutter,
}

impl ScrollbarConfig {
    /// Both axes, drawn while interacting, over the content.
    pub fn new() -> (r: Self)
        ensures
            r == (ScrollbarConfig {
                axis: ScrollAxis::Both,
                visibility: ScrollVisibility::Auto,
                gutter: ScrollGutter::Overlay,
            }),
    {
        ScrollbarConfig {
            axis: ScrollAxis::Both,
            visibility: ScrollVisibility::Auto,
            gutter: ScrollGutter::Overlay,
        }
    }

    /// Sets the enabled axes.
    pub fn axis(self, axis: ScrollAxis) -> (r: Self)
        ensures
            r == (ScrollbarConfig { axis, ..self }),
    {
        ScrollbarConfig { axis, ..self }
    }

    /// Sets when the scrollbars are drawn.
    pub fn visibility(self, visibility: ScrollVisibility) -> (r: Self)
        ensures
            r == (ScrollbarConfig { visibility, ..self }),
    {
        ScrollbarConfig { visibility, ..self }
    }

    /// Sets whether the scrollbars take layout space.
    pub fn gutter(self, gutter: ScrollGutter) -> (r: Self)
        ensures
            r == (ScrollbarConfig { gutter, ..self }),
    {
        ScrollbarConfig { gutter, ..self }
    }
}

impl Default for ScrollbarConfig {
    fn default() -> (r: Self)
        ensures
            r == (ScrollbarConfig {
                axis: ScrollAxis::Both,
                visibility: ScrollVisibility::Auto,
                gutter: ScrollGutter::Overlay,
            }),
    {
        ScrollbarConfig::new()
    }
}

/// Interval between two frames of a fade, in milliseconds.
pub const FADE_FRAME_INTERVAL_MS: u64 = 15;

/// Number of frames of a fade that lasts `duration_ms` milliseconds: one frame per
/// interval begun, at least one, at most `u32::MAX`.
pub fn fade_step_count(duration_ms: u64) -> (r: u32)
    ensures
        ({
            let d = if duration_ms == 0 {
                1
            } else {
                duration_ms as int
            };
            let steps = (d + FADE_FRAME_INTERVAL_MS - 1) / (FADE_FRAME_INTERVAL_MS as int);
            r == (if steps > u32::MAX {
                u32::MAX as int
            } else {
                steps
            })
        }),
        r >= 1,
{
    let d = if duration_ms == 0 {
        1
    } else {
        duration_ms
    };
    let steps = d / FADE_FRAME_INTERVAL_MS + if d % FADE_FRAME_INTERVAL_MS == 0 {
        0
    } else {
        1
    };
    proof {
        assert(steps == (d + 14) / 15int) by (nonlinear_arith)
            requires
                d >= 1,
                d % 15 == 0 ==> steps == d / 15,
                d % 15 != 0 ==> steps == d / 15 + 1,
        ;
    }
    if steps > u32::MAX as u64 {
        u32::MAX
    } else {
        steps as u32
    }
}

/// A physical scrollbar axis.
#[derive(Clone, Copy, Debug, PartialEq, Eq, Structural)]
pub enum PhysicalAxis {
    /// The vertical scrollbar.
    Vertical,
    /// The horizontal scrollbar.
    Horizontal,
}

/// The two optional axes are the same.
pub fn same_axis(a: Option<PhysicalAxis>, b: Option<PhysicalAxis>) -> (r: bool)
    ensures
        r == (a == b),
{
    match (a, b) {
        (None, None) => true,
        (Some(PhysicalAxis::Vertical), Some(PhysicalAxis::Vertical)) => true,
        (Some(PhysicalAxis::Horizontal), Some(PhysicalAxis::Horizontal)) => true,
        _ => false,
    }
}

/// The track of `axis` is drawn: the pointer is over it or it is being dragged.
pub fn track_is_visible(
    axis: PhysicalAxis,
    hovered_axis: Option<PhysicalAxis>,
    dragging_axis: Option<PhysicalAxis>,
) -> (r: bool)
    ensures
        r == (hovered_axis == Some(axis) || dragging_axis == Some(axis)),
{
    same_axis(hovered_axis, Some(axis)) || same_axis(dragging_axis, Some(axis))
}

/// The generation that follows `g`, wrapping at the top of the range.
pub open spec fn next_generation(g: u64) -> u64 {
    if g == u64::MAX {
        0
    } else {
        (g + 1) as u64
    }
}

fn bump(g: u64) -> (r: u64)
    ensures
        r == next_generation(g),
{
    if g == u64::MAX {
        0
    } else {
        g + 1
    }
}

/// What the host does to the scrollbars' opacity.
#[derive(Clone, Copy, Debug, PartialEq, Eq, Structural)]
pub enum FadeAction {
    /// Leave the opacity and any running fade as they are.
    Unchanged,
    /// Stop any fade and set the opacity to the new target at once.
    Jump,
    /// Stop any fade and start one towards the new target, ticking with this generation.
    Animate(u64),
}

/// What the host does after a decision: the fade, and a hide timer to start (its
/// generation); starting a new timer or a fade replaces the previous one.
#[derive(Clone, Copy, Debug, PartialEq, Eq, Structural)]
pub struct ScrollbarEffects {
    /// The opacity change.
    pub fade: FadeAction,
    /// A hide timer to start with this generation.
    pub schedule_hide: Option<u64>,
}

/// Answer of a fade loop's tick.
#[derive(Clone, Copy, Debug, PartialEq, Eq, Structural)]
pub enum FadeTick {
    /// The loop is stale: stop without touching the opacity.
    Stale,
    /// Set the opacity for this frame and wait for the next one.
    Continue,
    /// Set the opacity to the target and stop: the fade is over.
    Done,
}

/// What a pointer move asks of the host.
#[derive(Clone, Copy, Debug, PartialEq, Eq, Structural)]
pub enum PointerMoveOutcome {
    /// Apply the running drag to the pointer's position, refresh and stop the event.
    Drag,
    /// Carry out these effects; `notify` when the hover state changed.
    Hover {
        /// Effects to carry out.
        effects: ScrollbarEffects,
        /// The hover state changed and the area must be redrawn.
        notify: bool,
    },
}

/// The interaction state of a scroll area's scrollbars.
#[derive(Clone, Copy, Debug, PartialEq, Eq, Structural)]
pub struct ScrollbarInteraction {
    /// Track the pointer is over.
    pub hovered_axis: Option<PhysicalAxis>,
    /// Thumb the pointer is over.
    pub hovered_thumb_axis: Option<PhysicalAxis>,
    /// Axis whose thumb is being dragged.
    pub drag_axis: Option<PhysicalAxis>,
    /// In `Auto` visibility, the scrollbars are currently shown.
    pub auto_visible: bool,
    /// The opacity is heading to fully shown (else to hidden).
    pub target_shown: bool,
    /// Generation of the current hide timer.
    pub hide_generation: u64,
    /// A hide timer of the current generation is pending.
    pub hide_pending: bool,
    /// Generation of the current fade.
    pub fade_generation: u64,
    /// A fade of the current generation is running.
    pub fade_pending: bool,
}

/// No effect.
pub open spec fn no_effects() -> ScrollbarEffects {
    ScrollbarEffects { fade: FadeAction::Unchanged, schedule_hide: None }
}

/// State after heading the opacity to `shown` (without the effect).
pub open spec fn faded_to(st: ScrollbarInteraction, shown: bool, immediate: bool) -> ScrollbarInteraction {
    let st1 = if shown {
        ScrollbarInteraction { auto_visible: true, ..st }
    } else {
        st
    };
    if st1.target_shown == shown {
        st1
    } else if immediate {
        ScrollbarInteraction {
            target_shown: shown,
            fade_generation: next_generation(st.fade_generation),
            fade_pending: false,
            auto_visible: shown,
            ..st1
        }
    } else {
        ScrollbarInteraction {
            target_shown: shown,
            fade_generation: next_generation(st.fade_generation),
            fade_pending: true,
            ..st1
        }
    }
}

/// The effect of heading the opacity to `shown`.
pub open spec fn fade_action(st: ScrollbarInteraction, shown: bool, immediate: bool) -> FadeAction {
    if st.target_shown == shown {
        FadeAction::Unchanged
    } else if immediate {
        FadeAction::Jump
    } else {
        FadeAction::Animate(next_generation(st.fade_generation))
    }
}

/// State after cancelling the hide timer.
pub open spec fn hide_cancelled(st: ScrollbarInteraction) -> ScrollbarInteraction {
    ScrollbarInteraction {
        hide_generation: next_generation(st.hide_generation),
        hide_pending: false,
        ..st
    }
}

/// State after revealing the scrollbars.
pub open spec fn revealed(st: ScrollbarInteraction, immediate: bool) -> ScrollbarInteraction {
    let st1 = hide_cancelled(
        faded_to(ScrollbarInteraction { auto_visible: true, ..st }, true, immediate),
    );
    if st.hovered_axis is Some || st.drag_axis is Some {
        st1
    } else {
        ScrollbarInteraction { hide_pending: true, ..st1 }
    }
}

/// Effects of revealing the scrollbars.
pub open spec fn reveal_effects(st: ScrollbarInteraction, immediate: bool) -> ScrollbarEffects {
    ScrollbarEffects {
        fade: fade_action(st, true, immediate),
        schedule_hide: if st.hovered_axis is Some || st.drag_axis is Some {
            None
        } else {
            Some(next_generation(st.hide_generation))
        },
    }
}

/// Fading to a state the bars already fade to changes nothing and asks for no fade.
pub proof fn lemma_fade_to_settles(st: ScrollbarInteraction, shown: bool, i1: bool, i2: bool)
    ensures
        faded_to(faded_to(st, shown, i1), shown, i2) == faded_to(st, shown, i1),
        fade_action(faded_to(st, shown, i1), shown, i2) == FadeAction::Unchanged,
{
}

/// A reveal shows the bars and, away from the bars, schedules their hiding with the
/// generation it leaves pending.
pub proof fn lemma_reveal_shows(st: ScrollbarInteraction, immediate: bool)
    ensures
        revealed(st, immediate).target_shown,
        revealed(st, immediate).auto_visible,
        reveal_effects(st, immediate).schedule_hide matches Some(g) ==> g == revealed(
            st,
            immediate,
        ).hide_generation && revealed(st, immediate).hide_pending,
{
}

/// The state and answer after the pointer moved over the track `hovered` and the thumb
/// `thumb`: whether the hover changed, and the effects.
pub open spec fn hover_set_of(
    st: ScrollbarInteraction,
    hovered: Option<PhysicalAxis>,
    thumb: Option<PhysicalAxis>,
    immediate: bool,
) -> (ScrollbarInteraction, bool, ScrollbarEffects) {
    let st1 = ScrollbarInteraction { hovered_axis: hovered, hovered_thumb_axis: thumb, ..st };
    if st.hovered_axis == hovered && st.hovered_thumb_axis == thumb {
        (st, false, no_effects())
    } else if st.hovered_axis == hovered {
        (st1, true, no_effects())
    } else if hovered is Some {
        let st2 = ScrollbarInteraction { auto_visible: true, ..st1 };
        (
            hide_cancelled(faded_to(st2, true, immediate)),
            true,
            ScrollbarEffects { fade: fade_action(st2, true, immediate), schedule_hide: None },
        )
    } else {
        (revealed(st1, immediate), true, reveal_effects(st1, immediate))
    }
}

/// The state with a drag of the thumb of `axis` started, before fading and cancelling.
pub open spec fn dragging_on(st: ScrollbarInteraction, axis: PhysicalAxis) -> ScrollbarInteraction {
    ScrollbarInteraction {
        drag_axis: Some(axis),
        hovered_axis: Some(axis),
        hovered_thumb_axis: Some(axis),
        auto_visible: true,
        ..st
    }
}

/// The state and effects after a drag ends (nothing happens without a drag).
pub open spec fn drag_ended_of(st: ScrollbarInteraction, immediate: bool) -> (ScrollbarInteraction, ScrollbarEffects) {
    if st.drag_axis is None {
        (st, no_effects())
    } else {
        let st1 = ScrollbarInteraction {
            drag_axis: None,
            hovered_axis: None,
            hovered_thumb_axis: None,
            ..st
        };
        (revealed(st1, immediate), reveal_effects(st1, immediate))
    }
}

/// The track or thumb the pointer is over, vertical first.
pub open spec fn axis_under(over_vertical: bool, over_horizontal: bool) -> Option<PhysicalAxis> {
    if over_vertical {
        Some(PhysicalAxis::Vertical)
    } else if over_horizontal {
        Some(PhysicalAxis::Horizontal)
    } else {
        None
    }
}

impl ScrollbarInteraction {
    /// Nothing hovered or dragged, hidden, no timers.
    pub fn new() -> (r: ScrollbarInteraction)
        ensures
            r == (ScrollbarInteraction {
                hovered_axis: None,
                hovered_thumb_axis: None,
                drag_axis: None,
                auto_visible: false,
                target_shown: false,
                hide_generation: 0,
                hide_pending: false,
                fade_generation: 0,
                fade_pending: false,
            }),
    {
        ScrollbarInteraction {
            hovered_axis: None,
            hovered_thumb_axis: None,
            drag_axis: None,
            auto_visible: false,
            target_shown: false,
            hide_generation: 0,
            hide_pending: false,
            fade_generation: 0,
            fade_pending: false,
        }
    }

    /// Heads the opacity to shown (`true`) or hidden; `immediate` when motion is reduced or
    /// the fade has no duration.
    pub fn fade_to(&mut self, shown: bool, immediate: bool) -> (r: FadeAction)
        ensures
            *final(self) == faded_to(*old(self), shown, immediate),
            r == fade_action(*old(self), shown, immediate),
    {
        if shown {
            self.auto_visible = true;
        }
        if self.target_shown == shown {
            return FadeAction::Unchanged;
        }
        self.target_shown = shown;
        self.fade_generation = bump(self.fade_generation);
        self.fade_pending = false;
        if immediate {
            self.auto_visible = shown;
            return FadeAction::Jump;
        }
        self.fade_pending = true;
        FadeAction::Animate(self.fade_generation)
    }

    /// Makes any pending hide timer stale.
    pub fn cancel_hide(&mut self)
        ensures
            *final(self) == hide_cancelled(*old(self)),
    {
        self.hide_generation = bump(self.hide_generation);
        self.hide_pending = false;
    }

    /// Shows the scrollbars and, unless the pointer is over a track or a thumb is dragged,
    /// schedules hiding them again.
    pub fn reveal_bars(&mut self, immediate: bool) -> (r: ScrollbarEffects)
        ensures
            *final(self) == revealed(*old(self), immediate),
            r == reveal_effects(*old(self), immediate),
    {
        self.auto_visible = true;
        let fade = self.fade_to(true, immediate);
        self.cancel_hide();
        if self.hovered_axis.is_some() || self.drag_axis.is_some() {
            return ScrollbarEffects { fade, schedule_hide: None };
        }
        self.hide_pending = true;
        ScrollbarEffects { fade, schedule_hide: Some(self.hide_generation) }
    }

    /// The hide timer started with `generation` has run out: a current timer hides the
    /// scrollbars unless they are hovered or dragged; a stale one does nothing.
    pub fn hide_elapsed(&mut self, generation: u64, immediate: bool) -> (r: FadeAction)
        ensures
            generation != old(self).hide_generation ==> *final(self) == *old(self) && r
                == FadeAction::Unchanged,
            generation == old(self).hide_generation ==> {
                let st1 = ScrollbarInteraction { hide_pending: false, ..*old(self) };
                if st1.hovered_axis is None && st1.drag_axis is None {
                    *final(self) == faded_to(st1, false, immediate) && r == fade_action(
                        st1,
                        false,
                        immediate,
                    )
                } else {
                    *final(self) == st1 && r == FadeAction::Unchanged
                }
            },
    {
        if generation != self.hide_generation {
            return FadeAction::Unchanged;
        }
        self.hide_pending = false;
        if self.hovered_axis.is_none() && self.drag_axis.is_none() {
            self.fade_to(false, immediate)
        } else {
            FadeAction::Unchanged
        }
    }

    /// A frame of the fade started with `generation` passed; `step` of `steps` frames are
    /// done. A current fade ends at its last frame, or at once when motion is reduced.
    pub fn fade_tick(&mut self, generation: u64, step: u32, steps: u32, reduce_motion: bool) -> (r:
        FadeTick)
        ensures
            generation != old(self).fade_generation ==> r == FadeTick::Stale && *final(self)
                == *old(self),
            generation == old(self).fade_generation && (reduce_motion || step >= steps) ==> r
                == FadeTick::Done && *final(self) == (ScrollbarInteraction {
                auto_visible: old(self).target_shown,
                fade_pending: false,
                ..*old(self)
            }),
            generation == old(self).fade_generation && !(reduce_motion || step >= steps) ==> r
                == FadeTick::Continue && *final(self) == *old(self),
    {
        if generation != self.fade_generation {
            return FadeTick::Stale;
        }
        if reduce_motion || step >= steps {
            self.auto_visible = self.target_shown;
            self.fade_pending = false;
            return FadeTick::Done;
        }
        FadeTick::Continue
    }

    /// The pointer is now over the track `hovered` and the thumb `hovered_thumb`.
    ///
    /// Returns whether the hover state changed, and the effects: entering a track shows the
    /// scrollbars and cancels hiding; leaving all tracks reveals them (hiding them later).
    pub fn set_hovered(
        &mut self,
        hovered: Option<PhysicalAxis>,
        hovered_thumb: Option<PhysicalAxis>,
        immediate: bool,
    ) -> (r: (bool, ScrollbarEffects))
        ensures
            (*final(self), r.0, r.1) == hover_set_of(*old(self), hovered, hovered_thumb, immediate),
    {
        let axis_changed = !same_axis(self.hovered_axis, hovered);
        if !axis_changed && same_axis(self.hovered_thumb_axis, hovered_thumb) {
            return (false, ScrollbarEffects { fade: FadeAction::Unchanged, schedule_hide: None });
        }
        self.hovered_axis = hovered;
        self.hovered_thumb_axis = hovered_thumb;
        if !axis_changed {
            return (true, ScrollbarEffects { fade: FadeAction::Unchanged, schedule_hide: None });
        }
        if hovered.is_some() {
            self.auto_visible = true;
            let fade = self.fade_to(true, immediate);
            self.cancel_hide();
            (true, ScrollbarEffects { fade, schedule_hide: None })
        } else {
            let effects = self.reveal_bars(immediate);
            (true, effects)
        }
    }

    /// A drag of the thumb of `axis` starts: the pointer counts as over that track and
    /// thumb, the scrollbars are shown and hiding is cancelled.
    pub fn start_drag(&mut self, axis: PhysicalAxis, immediate: bool) -> (r: FadeAction)
        ensures
            *final(self) == hide_cancelled(faded_to(dragging_on(*old(self), axis), true, immediate)),
            r == fade_action(dragging_on(*old(self), axis), true, immediate),
    {
        self.drag_axis = Some(axis);
        self.hovered_axis = Some(axis);
        self.hovered_thumb_axis = Some(axis);
        self.auto_visible = true;
        let fade = self.fade_to(true, immediate);
        self.cancel_hide();
        fade
    }

    /// The drag ends: nothing counts as hovered any more and the scrollbars are revealed
    /// (to be hidden later). Without a drag nothing happens.
    pub fn end_drag(&mut self, immediate: bool) -> (r: ScrollbarEffects)
        ensures
            (*final(self), r) == drag_ended_of(*old(self), immediate),
    {
        if self.drag_axis.is_none() {
            return ScrollbarEffects { fade: FadeAction::Unchanged, schedule_hide: None };
        }
        self.drag_axis = None;
        self.hovered_axis = None;
        self.hovered_thumb_axis = None;
        self.reveal_bars(immediate)
    }

    /// Forgets all interaction: nothing hovered or dragged, timers and fades stale, hidden.
    /// Returns whether anything changed (`opacity_is_zero` is the host's current opacity).
    pub fn reset_interaction(&mut self, opacity_is_zero: bool) -> (changed: bool)
        ensures
            ({
                let st = *old(self);
                let idle = st.hovered_axis is None && st.hovered_thumb_axis is None
                    && st.drag_axis is None && !st.auto_visible && opacity_is_zero
                    && !st.target_shown && !st.hide_pending && !st.fade_pending;
                if idle {
                    !changed && *final(self) == st
                } else {
                    changed && *final(self) == (ScrollbarInteraction {
                        hovered_axis: None,
                        hovered_thumb_axis: None,
                        drag_axis: None,
                        auto_visible: false,
                        target_shown: false,
                        hide_generation: next_generation(st.hide_generation),
                        hide_pending: false,
                        fade_generation: next_generation(st.fade_generation),
                        fade_pending: false,
                    })
                }
            }),
    {
        if self.hovered_axis.is_none() && self.hovered_thumb_axis.is_none()
            && self.drag_axis.is_none() && !self.auto_visible && opacity_is_zero
            && !self.target_shown && !self.hide_pending && !self.fade_pending {
            return false;
        }
        self.hovered_axis = None;
        self.hovered_thumb_axis = None;
        self.drag_axis = None;
        self.hide_generation = bump(self.hide_generation);
        self.hide_pending = false;
        self.fade_generation = bump(self.fade_generation);
        self.fade_pending = false;
        self.auto_visible = false;
        self.target_shown = false;
        true
    }

    /// The pointer moved. `dragging` is whether the left button is held; the other flags
    /// are the host's hit tests against the drawn tracks, thumbs and viewport.
    ///
    /// During a drag with the button held, the drag goes on. Otherwise a drag ends, the
    /// hovered track and thumb (vertical before horizontal) are recorded, and in `Auto`
    /// visibility a pointer over the content but off the tracks reveals the scrollbars.
    pub fn pointer_moved(
        &mut self,
        dragging: bool,
        over_vertical_track: bool,
        over_horizontal_track: bool,
        over_vertical_thumb: bool,
        over_horizontal_thumb: bool,
        in_viewport: bool,
        visibility: ScrollVisibility,
        immediate: bool,
    ) -> (r: PointerMoveOutcome)
        ensures
            old(self).drag_axis is Some && dragging ==> r == PointerMoveOutcome::Drag
                && *final(self) == *old(self),
            !(old(self).drag_axis is Some && dragging) ==> ({
                let st1 = drag_ended_of(*old(self), immediate).0;
                let h = hover_set_of(
                    st1,
                    axis_under(over_vertical_track, over_horizontal_track),
                    axis_under(over_vertical_thumb, over_horizontal_thumb),
                    immediate,
                );
                if visibility == ScrollVisibility::Auto && in_viewport && axis_under(
                    over_vertical_track,
                    over_horizontal_track,
                ) is None {
                    *final(self) == revealed(h.0, immediate) && r == (PointerMoveOutcome::Hover {
                        effects: reveal_effects(h.0, immediate),
                        notify: h.1,
                    })
                } else {
                    *final(self) == h.0 && r == (PointerMoveOutcome::Hover { effects: h.2, notify: h.1 })
                }
            }),
    {
        if self.drag_axis.is_some() {
            if dragging {
                return PointerMoveOutcome::Drag;
            }
            let _ = self.end_drag(immediate);
        }
        let hovered = if over_vertical_track {
            Some(PhysicalAxis::Vertical)
        } else if over_horizontal_track {
            Some(PhysicalAxis::Horizontal)
        } else {
            None
        };
        let thumb = if over_vertical_thumb {
            Some(PhysicalAxis::Vertical)
        } else if over_horizontal_thumb {
            Some(PhysicalAxis::Horizontal)
        } else {
            None
        };
        let (notify, effects) = self.set_hovered(hovered, thumb, immediate);
        if visibility == ScrollVisibility::Auto && in_viewport && hovered.is_none() {
            let revealed = self.reveal_bars(immediate);
            return PointerMoveOutcome::Hover { effects: revealed, notify };
        }
        PointerMoveOutcome::Hover { effects, notify }
    }

    /// The left button went down over a track (vertical before horizontal): the drag of
    /// that axis starts. Returns the axis, or `None` when the press is not on a track.
    pub fn pointer_pressed(
        &mut self,
        left_button: bool,
        over_vertical_hitbox: bool,
        over_horizontal_hitbox: bool,
        immediate: bool,
    ) -> (r: Option<PhysicalAxis>)
        ensures
            r == (if left_button {
                axis_under(over_vertical_hitbox, over_horizontal_hitbox)
            } else {
                None
            }),
            r is None ==> *final(self) == *old(self),
            r matches Some(axis) ==> *final(self) == hide_cancelled(
                faded_to(dragging_on(*old(self), axis), true, immediate),
            ),
    {
        if !left_button {
            return None;
        }
        let axis = if over_vertical_hitbox {
            PhysicalAxis::Vertical
        } else if over_horizontal_hitbox {
            PhysicalAxis::Horizontal
        } else {
            return None;
        };
        let _ = self.start_drag(axis, immediate);
        Some(axis)
    }

    /// The left button went up: a running drag ends. Returns whether a drag ended (the
    /// host then stops the event) and the effects.
    pub fn pointer_released(&mut self, left_button: bool, immediate: bool) -> (r: (
        bool,
        ScrollbarEffects,
    ))
        ensures
            r.0 == (left_button && old(self).drag_axis is Some),
            !r.0 ==> *final(self) == *old(self) && r.1 == no_effects(),
            r.0 ==> (*final(self), r.1) == drag_ended_of(*old(self), immediate),
    {
        if left_button && self.drag_axis.is_some() {
            let effects = self.end_drag(immediate);
            (true, effects)
        } else {
            (false, ScrollbarEffects { fade: FadeAction::Unchanged, schedule_hide: None })
        }
    }
}

/// A scrolling key's meaning along one axis.
#[derive(Clone, Copy, Debug, PartialEq, Eq, Structural)]
pub enum ScrollKeyCommand {
    /// One keyboard step backwards (`true`) or forwards.
    Step(PhysicalAxis, bool),
    /// Nine tenths of the viewport backwards (`true`) or forwards.
    Page(PhysicalAxis, bool),
    /// To the start of the axis.
    Home(PhysicalAxis),
    /// To the end of the axis.
    End(PhysicalAxis),
}

/// The scrolling command of a key pressed without modifiers, for the enabled axes: arrow
/// keys along their own axis, and page, home and end keys along the vertical axis when it
/// is enabled, else the horizontal one.
pub fn scroll_key_command(key: &str, no_modifiers: bool, axis: ScrollAxis) -> (r: Option<
    ScrollKeyCommand,
>)
    ensures
        !no_modifiers ==> r is None,
        no_modifiers ==> r == scroll_key_command_of(key@, axis),
{
    if !no_modifiers {
        return None;
    }
    let v = axis.has_vertical();
    let h = axis.has_horizontal();
    let vertical_first = if v {
        PhysicalAxis::Vertical
    } else {
        PhysicalAxis::Horizontal
    };
    if same_text(key, "up") {
        if v { Some(ScrollKeyCommand::Step(PhysicalAxis::Vertical, true)) } else { None }
    } else if same_text(key, "down") {
        if v { Some(ScrollKeyCommand::Step(PhysicalAxis::Vertical, false)) } else { None }
    } else if same_text(key, "left") {
        if h { Some(ScrollKeyCommand::Step(PhysicalAxis::Horizontal, true)) } else { None }
    } else if same_text(key, "right") {
        if h { Some(ScrollKeyCommand::Step(PhysicalAxis::Horizontal, false)) } else { None }
    } else if same_text(key, "pageup") {
        Some(ScrollKeyCommand::Page(vertical_first, true))
    } else if same_text(key, "pagedown") {
        Some(ScrollKeyCommand::Page(vertical_first, false))
    } else if same_text(key, "home") {
        Some(ScrollKeyCommand::Home(vertical_first))
    } else if same_text(key, "end") {
        Some(ScrollKeyCommand::End(vertical_first))
    } else {
        None
    }
}

/// The scrolling command of the key named `key` for the enabled axes.
pub open spec fn scroll_key_command_of(key: Seq<char>, axis: ScrollAxis) -> Option<ScrollKeyCommand> {
    let v = axis is Vertical || axis is Both;
    let h = axis is Horizontal || axis is Both;
    let first = if v {
        PhysicalAxis::Vertical
    } else {
        PhysicalAxis::Horizontal
    };
    if key == "up"@ {
        if v { Some(ScrollKeyCommand::Step(PhysicalAxis::Vertical, true)) } else { None }
    } else if key == "down"@ {
        if v { Some(ScrollKeyCommand::Step(PhysicalAxis::Vertical, false)) } else { None }
    } else if key == "left"@ {
        if h { Some(ScrollKeyCommand::Step(PhysicalAxis::Horizontal, true)) } else { None }
    } else if key == "right"@ {
        if h { Some(ScrollKeyCommand::Step(PhysicalAxis::Horizontal, false)) } else { None }
    } else if key == "pageup"@ {
        Some(ScrollKeyCommand::Page(first, true))
    } else if key == "pagedown"@ {
        Some(ScrollKeyCommand::Page(first, false))
    } else if key == "home"@ {
        Some(ScrollKeyCommand::Home(first))
    } else if key == "end"@ {
        Some(ScrollKeyCommand::End(first))
    } else {
        None
    }
}

/// The scrolling keys: Up and Down step the vertical axis backwards and forwards, Left
/// and Right the horizontal axis, each only when its axis scrolls; Page Up and Page Down
/// page backwards and forwards, and Home and End go to the start and the end, along the
/// vertical axis when it scrolls, else along the horizontal one. Opposite keys never ask
/// for the same command.
pub proof fn lemma_scroll_keys(axis: ScrollAxis)
    ensures
        axis !is Horizontal ==> {
            &&& scroll_key_command_of("up"@, axis) == Some(ScrollKeyCommand::Step(PhysicalAxis::Vertical, true))
            &&& scroll_key_command_of("down"@, axis) == Some(ScrollKeyCommand::Step(PhysicalAxis::Vertical, false))
            &&& scroll_key_command_of("pageup"@, axis) == Some(ScrollKeyCommand::Page(PhysicalAxis::Vertical, true))
            &&& scroll_key_command_of("pagedown"@, axis) == Some(ScrollKeyCommand::Page(PhysicalAxis::Vertical, false))
            &&& scroll_key_command_of("home"@, axis) == Some(ScrollKeyCommand::Home(PhysicalAxis::Vertical))
            &&& scroll_key_command_of("end"@, axis) == Some(ScrollKeyCommand::End(PhysicalAxis::Vertical))
        },
        axis is Horizontal ==> {
            &&& scroll_key_command_of("up"@, axis) is None
            &&& scroll_key_command_of("down"@, axis) is None
            &&& scroll_key_command_of("pageup"@, axis) == Some(ScrollKeyCommand::Page(PhysicalAxis::Horizontal, true))
            &&& scroll_key_command_of("pagedown"@, axis) == Some(ScrollKeyCommand::Page(PhysicalAxis::Horizontal, false))
            &&& scroll_key_command_of("home"@, axis) == Some(ScrollKeyCommand::Home(PhysicalAxis::Horizontal))
            &&& scroll_key_command_of("end"@, axis) == Some(ScrollKeyCommand::End(PhysicalAxis::Horizontal))
        },
        axis !is Vertical ==> {
            &&& scroll_key_command_of("left"@, axis) == Some(ScrollKeyCommand::Step(PhysicalAxis::Horizontal, true))
            &&& scroll_key_command_of("right"@, axis) == Some(ScrollKeyCommand::Step(PhysicalAxis::Horizontal, false))
        },
        axis is Vertical ==> scroll_key_command_of("left"@, axis) is None && scroll_key_command_of(
            "right"@,
            axis,
        ) is None,
        scroll_key_command_of("up"@, axis) == scroll_key_command_of("down"@, axis) ==> scroll_key_command_of("up"@, axis) is None,
        scroll_key_command_of("left"@, axis) == scroll_key_command_of("right"@, axis) ==> scroll_key_command_of("left"@, axis) is None,
        scroll_key_command_of("pageup"@, axis) != scroll_key_command_of("pagedown"@, axis),
        scroll_key_command_of("home"@, axis) != scroll_key_command_of("end"@, axis),
{
    reveal_strlit("up");
    reveal_strlit("down");
    reveal_strlit("left");
    reveal_strlit("right");
    reveal_strlit("pageup");
    reveal_strlit("pagedown");
    reveal_strlit("home");
    reveal_strlit("end");
    assert("up"@.len() == 2 && "down"@.len() == 4 && "left"@.len() == 4 && "right"@.len() == 5
        && "pageup"@.len() == 6 && "pagedown"@.len() == 8 && "home"@.len() == 4 && "end"@.len() == 3);
    assert("down"@ != "up"@ && "left"@ != "up"@ && "right"@ != "up"@ && "pageup"@ != "up"@
        && "pagedown"@ != "up"@ && "home"@ != "up"@ && "end"@ != "up"@);
    assert("down"@[0] != "left"@[0] && "down"@[0] != "home"@[0] && "left"@[0] != "home"@[0]);
    assert("left"@ != "down"@ && "home"@ != "down"@ && "home"@ != "left"@);
}

} // verus!
