use vstd::prelude::*;

verus! {

/// The two kinds of transient top-level surface the panel opens: a popup
/// positioned relative to the widget that triggered it, and a modal
/// centered over a dimming backdrop.
#[derive(Clone, Copy, Debug, PartialEq, Eq)]
pub enum OverlayKind {
    Popup,
    Modal,
}

/// The life of one overlay instance. `Closed` is terminal: a closed
/// instance is never reopened, a fresh activation builds a fresh instance.
#[derive(Clone, Copy, Debug, PartialEq, Eq)]
pub enum OverlayState {
    Constructed,
    Shown,
    Closed,
}

/// An on-screen allocation: position and size of a widget.
#[derive(Clone, Copy, Debug, PartialEq, Eq)]
pub struct Rect {
    pub x: i32,
    pub y: i32,
    pub width: i32,
    pub height: i32,
}

/// What can happen to an overlay once it exists: its top level loses input
/// focus, or its dedicated close affordance is used.
#[derive(Clone, Copy, Debug, PartialEq, Eq)]
pub enum OverlayEvent {
    FocusLost,
    CloseRequested,
}

/// What the surroundings must do in response: tear the window down, or
/// nothing.
#[derive(Clone, Copy, Debug, PartialEq, Eq)]
pub enum OverlayAction {
    CloseWindow,
    Ignore,
}

/// How one event moves an overlay on. Focus loss dismisses a popup that is
/// shown — and only a popup: a modal stays until its close affordance is
/// used. An explicit close request dismisses whatever is shown. A closed
/// overlay ignores everything: no transition leads out of `Closed`.
pub open spec fn spec_overlay_step(kind: OverlayKind, state: OverlayState, e: OverlayEvent) -> (
    OverlayState,
    OverlayAction,
) {
    match e {
        OverlayEvent::FocusLost => if kind is Popup && state is Shown {
            (OverlayState::Closed, OverlayAction::CloseWindow)
        } else {
            (state, OverlayAction::Ignore)
        },
        OverlayEvent::CloseRequested => if state is Shown {
            (OverlayState::Closed, OverlayAction::CloseWindow)
        } else {
            (state, OverlayAction::Ignore)
        },
    }
}

/// Position of a state along the one-way life of an overlay.
pub open spec fn state_rank(state: OverlayState) -> int {
    match state {
        OverlayState::Constructed => 0,
        OverlayState::Shown => 1,
        OverlayState::Closed => 2,
    }
}

/// One transient overlay instance.
///
/// A popup keeps the on-screen allocation of its trigger widget, captured
/// once at construction and never refreshed: if the trigger moves between
/// construction and show, the position is stale — deliberately so.
pub struct Overlay {
    pub kind: OverlayKind,
    pub state: OverlayState,
    pub anchor: Option<Rect>,
}

impl Overlay {
    /// Exactly the popups carry an anchor allocation.
    pub open spec fn wf(self) -> bool {
        self.kind is Popup <==> self.anchor is Some
    }

    /// Builds a popup overlay, not yet shown, anchored to the trigger
    /// widget's current allocation. Construction performs no I/O and shows
    /// nothing; only [`Overlay::show`] does.
    pub fn new_popup(anchor: Rect) -> (r: Overlay)
        ensures
            r.kind == OverlayKind::Popup,
            r.state == OverlayState::Constructed,
            r.anchor == Some(anchor),
            r.wf(),
    {
        Overlay { kind: OverlayKind::Popup, state: OverlayState::Constructed, anchor: Some(anchor) }
    }

    /// Builds a modal overlay, not yet shown.
    pub fn new_modal() -> (r: Overlay)
        ensures
            r.kind == OverlayKind::Modal,
            r.state == OverlayState::Constructed,
            r.anchor is None,
            r.wf(),
    {
        Overlay { kind: OverlayKind::Modal, state: OverlayState::Constructed, anchor: None }
    }

    /// Shows the overlay. A closed overlay cannot be shown again — there is
    /// no way to reopen an instance; a fresh activation builds a fresh one.
    pub fn show(&mut self)
        requires
            !(old(self).state is Closed),
        ensures
            final(self).state == OverlayState::Shown,
            final(self).kind == old(self).kind,
            final(self).anchor == old(self).anchor,
    {
        self.state = OverlayState::Shown;
    }

    /// Feeds the overlay one event and says what to do with the window.
    pub fn handle_event(&mut self, e: OverlayEvent) -> (a: OverlayAction)
        ensures
            final(self).kind == old(self).kind,
            final(self).anchor == old(self).anchor,
            (final(self).state, a) == spec_overlay_step(old(self).kind, old(self).state, e),
    {
        match e {
            OverlayEvent::FocusLost => {
                match (self.kind, self.state) {
                    (OverlayKind::Popup, OverlayState::Shown) => {
                        self.state = OverlayState::Closed;
                        OverlayAction::CloseWindow
                    },
                    _ => OverlayAction::Ignore,
                }
            },
            OverlayEvent::CloseRequested => {
                match self.state {
                    OverlayState::Shown => {
                        self.state = OverlayState::Closed;
                        OverlayAction::CloseWindow
                    },
                    _ => OverlayAction::Ignore,
                }
            },
        }
    }
}

/// The state an overlay reaches after a whole sequence of events.
pub open spec fn run_overlay(kind: OverlayKind, state: OverlayState, evs: Seq<OverlayEvent>) -> OverlayState
    decreases evs.len(),
{
    if evs.len() == 0 {
        state
    } else {
        spec_overlay_step(kind, run_overlay(kind, state, evs.drop_last()), evs.last()).0
    }
}

/// No single event moves an overlay backwards along
/// `Constructed -> Shown -> Closed`.
pub proof fn lemma_overlay_step_monotone(kind: OverlayKind, state: OverlayState, e: OverlayEvent)
    ensures
        state_rank(spec_overlay_step(kind, state, e).0) >= state_rank(state),
{
}

/// `Closed` is terminal: every event leaves a closed overlay closed and
/// asks for nothing.
pub proof fn lemma_closed_is_terminal(kind: OverlayKind, e: OverlayEvent)
    ensures
        spec_overlay_step(kind, OverlayState::Closed, e) == (
            OverlayState::Closed,
            OverlayAction::Ignore,
        ),
{
}

/// A modal never auto-dismisses: focus loss leaves it exactly as it is.
pub proof fn lemma_modal_ignores_focus_loss(state: OverlayState)
    ensures
        spec_overlay_step(OverlayKind::Modal, state, OverlayEvent::FocusLost) == (
            state,
            OverlayAction::Ignore,
        ),
{
}

/// A closed overlay stays closed through any further sequence of events:
/// no path leads back, so a fresh activation must build a fresh instance.
pub proof fn lemma_closed_stays_closed(kind: OverlayKind, evs: Seq<OverlayEvent>)
    ensures
        run_overlay(kind, OverlayState::Closed, evs) == OverlayState::Closed,
    decreases evs.len(),
{
    if evs.len() > 0 {
        lemma_closed_stays_closed(kind, evs.drop_last());
    }
}

/// Over any sequence of events the life of an overlay is monotonic: it
/// only ever moves forward along `Constructed -> Shown -> Closed`.
pub proof fn lemma_overlay_monotone(kind: OverlayKind, state: OverlayState, evs: Seq<OverlayEvent>)
    ensures
        state_rank(run_overlay(kind, state, evs)) >= state_rank(state),
    decreases evs.len(),
{
    if evs.len() > 0 {
        lemma_overlay_monotone(kind, state, evs.drop_last());
        lemma_overlay_step_monotone(kind, run_overlay(kind, state, evs.drop_last()), evs.last());
    }
}

} // verus!
