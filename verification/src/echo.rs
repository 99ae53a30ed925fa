use crate::volume::Fraction;
use vstd::prelude::*;

verus! {

/// The counting guard that keeps a programmatic slider update from echoing
/// back into a device write.
///
/// Two event sources move the same slider: the user dragging it, and a
/// backend change notification driving a programmatic update. On most
/// toolkits the programmatic update itself raises a synthetic
/// "value changed" event, which without suppression would write the value
/// straight back to the device and oscillate under rapid external changes.
///
/// The guard counts: it is armed once per programmatic update, and the
/// value-changed handler absorbs exactly one armed update per synthetic
/// event. A counter rather than a flag tolerates bursts of notifications
/// arriving faster than the handler drains them.
pub struct EchoGuard {
    pub pending: u64,
}

impl EchoGuard {
    /// A fresh guard suppresses nothing.
    pub fn new() -> (r: EchoGuard)
        ensures
            r.pending == 0,
    {
        EchoGuard { pending: 0 }
    }

    /// Arms the guard, immediately before one programmatic slider update.
    pub fn arm(&mut self)
        requires
            old(self).pending < u64::MAX,
        ensures
            final(self).pending == old(self).pending + 1,
    {
        self.pending = self.pending + 1;
    }

    /// Asks the guard about one "value changed" event. While updates are
    /// pending, the change is absorbed as synthetic and exactly one pending
    /// update is consumed; otherwise the change is the user's and passes.
    pub fn absorb(&mut self) -> (suppressed: bool)
        ensures
            old(self).pending > 0 ==> (suppressed && final(self).pending == old(self).pending
                - 1),
            old(self).pending == 0 ==> (!suppressed && final(self).pending == 0),
    {
        if self.pending > 0 {
            self.pending = self.pending - 1;
            true
        } else {
            false
        }
    }
}

/// What reaches a volume slider: a backend change notification carrying the
/// re-queried fraction, or the toolkit's "value changed" event carrying the
/// slider's new position (raised by user drags and by programmatic updates
/// alike — the slider cannot tell them apart, only the guard can).
#[derive(Clone, Copy, Debug, PartialEq, Eq)]
pub enum SliderEvent {
    Notification(Fraction),
    SliderChanged(Fraction),
}

/// What the slider's surroundings must do in response: move the slider
/// control programmatically, write the volume to the device, or nothing.
#[derive(Clone, Copy, Debug, PartialEq, Eq)]
pub enum SliderAction {
    SetSlider(Fraction),
    WriteVolume(Fraction),
    Ignore,
}

/// The dispatcher that keeps one volume slider and the device mutually
/// consistent: every notification arms the guard and moves the slider;
/// every slider change either is absorbed by the guard or writes the device.
pub struct SliderSync {
    pub guard: EchoGuard,
}

impl SliderSync {
    pub fn new() -> (r: SliderSync)
        ensures
            r.guard.pending == 0,
    {
        SliderSync { guard: EchoGuard::new() }
    }

    /// Handles one slider event. A notification always moves the slider and
    /// never writes the device; a slider change writes the device exactly
    /// when no programmatic update is pending.
    pub fn handle_event(&mut self, e: SliderEvent) -> (a: SliderAction)
        requires
            old(self).guard.pending < u64::MAX,
        ensures
            e matches SliderEvent::Notification(v) ==> (final(self).guard.pending
                == old(self).guard.pending + 1 && a == SliderAction::SetSlider(v)),
            e matches SliderEvent::SliderChanged(v) ==> (if old(self).guard.pending > 0 {
                final(self).guard.pending == old(self).guard.pending - 1 && a
                    == SliderAction::Ignore
            } else {
                final(self).guard.pending == 0 && a == SliderAction::WriteVolume(v)
            }),
    {
        match e {
            SliderEvent::Notification(v) => {
                self.guard.arm();
                SliderAction::SetSlider(v)
            },
            SliderEvent::SliderChanged(v) => {
                if self.guard.absorb() {
                    SliderAction::Ignore
                } else {
                    SliderAction::WriteVolume(v)
                }
            },
        }
    }
}

/// One event in a slider history, as the suppression argument sees it: a
/// backend notification (whose handling arms the guard and programmatically
/// moves the slider), the synthetic change event that this programmatic
/// move raises some time later, or a change the user made. Synthetic and
/// user changes reach the guard through the same handler; the distinction
/// exists only in this history view.
#[derive(Clone, Copy, Debug, PartialEq, Eq)]
pub enum TraceEvent {
    Notification,
    SyntheticChange,
    UserChange,
}

/// How many backend notifications a history holds.
pub open spec fn count_notifications(tr: Seq<TraceEvent>) -> nat
    decreases tr.len(),
{
    if tr.len() == 0 {
        0
    } else {
        count_notifications(tr.drop_last()) + if tr.last() is Notification {
            1nat
        } else {
            0nat
        }
    }
}

/// How many synthetic change events a history holds.
pub open spec fn count_synthetic(tr: Seq<TraceEvent>) -> nat
    decreases tr.len(),
{
    if tr.len() == 0 {
        0
    } else {
        count_synthetic(tr.drop_last()) + if tr.last() is SyntheticChange {
            1nat
        } else {
            0nat
        }
    }
}

/// How many user-made changes a history holds.
pub open spec fn count_user(tr: Seq<TraceEvent>) -> nat
    decreases tr.len(),
{
    if tr.len() == 0 {
        0
    } else {
        count_user(tr.drop_last()) + if tr.last() is UserChange {
            1nat
        } else {
            0nat
        }
    }
}

/// The counting guard run over a whole history from a fresh state:
/// (pending updates, changes suppressed, device writes let through).
/// The steps are exactly those of [`SliderSync::handle_event`]: a
/// notification arms the guard; any change — synthetic or user, the guard
/// cannot tell — is suppressed when updates are pending and written
/// through when none are.
pub open spec fn run_guard(tr: Seq<TraceEvent>) -> (nat, nat, nat)
    decreases tr.len(),
{
    if tr.len() == 0 {
        (0nat, 0nat, 0nat)
    } else {
        let s = run_guard(tr.drop_last());
        match tr.last() {
            TraceEvent::Notification => ((s.0 + 1) as nat, s.1, s.2),
            TraceEvent::SyntheticChange => if s.0 > 0 {
                ((s.0 - 1) as nat, (s.1 + 1) as nat, s.2)
            } else {
                (s.0, s.1, (s.2 + 1) as nat)
            },
            TraceEvent::UserChange => if s.0 > 0 {
                ((s.0 - 1) as nat, (s.1 + 1) as nat, s.2)
            } else {
                (s.0, s.1, (s.2 + 1) as nat)
            },
        }
    }
}

/// A history is well formed when, in every prefix, each synthetic change is
/// preceded by the notification whose programmatic update raised it — the
/// toolkit cannot raise the echo of an update that has not happened.
pub open spec fn synthetics_follow_notifications(tr: Seq<TraceEvent>) -> bool {
    forall|i: int|
        0 <= i <= tr.len() ==> count_synthetic(#[trigger] tr.take(i)) <= count_notifications(
            tr.take(i),
        )
}

/// No history holds more events of one kind than events.
proof fn lemma_counts_le_len(tr: Seq<TraceEvent>)
    ensures
        count_notifications(tr) <= tr.len(),
        count_synthetic(tr) + count_user(tr) <= tr.len(),
    decreases tr.len(),
{
    if tr.len() > 0 {
        lemma_counts_le_len(tr.drop_last());
    }
}

/// Bookkeeping that holds of any history: armed updates are notifications
/// not yet absorbed, and every change either was suppressed or wrote.
proof fn lemma_run_guard_sums(tr: Seq<TraceEvent>)
    ensures
        run_guard(tr).0 + run_guard(tr).1 == count_notifications(tr),
        run_guard(tr).1 + run_guard(tr).2 == count_synthetic(tr) + count_user(tr),
    decreases tr.len(),
{
    if tr.len() > 0 {
        lemma_run_guard_sums(tr.drop_last());
    }
}

/// In a well-formed history the guard never holds more pending updates than
/// there are synthetic changes still on their way.
proof fn lemma_run_guard_pending_bound(tr: Seq<TraceEvent>)
    requires
        synthetics_follow_notifications(tr),
    ensures
        run_guard(tr).0 + count_synthetic(tr) <= count_notifications(tr),
    decreases tr.len(),
{
    if tr.len() > 0 {
        assert forall|i: int|
            0 <= i <= tr.drop_last().len() implies count_synthetic(
            #[trigger] tr.drop_last().take(i),
        ) <= count_notifications(tr.drop_last().take(i)) by {
            assert(tr.drop_last().take(i) =~= tr.take(i));
        }
        lemma_run_guard_pending_bound(tr.drop_last());
        assert(tr.take(tr.len() as int) =~= tr);
    }
}

/// Over any complete well-formed history — N backend notifications, each of
/// whose programmatic updates eventually raised its synthetic change event,
/// interleaved in any order with M user changes — the counting guard
/// suppresses exactly N handler invocations and lets exactly M device
/// writes through: no notification echoes into a write, and no user change
/// is lost.
pub proof fn lemma_echo_guard_counts(tr: Seq<TraceEvent>)
    requires
        synthetics_follow_notifications(tr),
        count_synthetic(tr) == count_notifications(tr),
    ensures
        run_guard(tr).1 == count_notifications(tr),
        run_guard(tr).2 == count_user(tr),
{
    lemma_run_guard_sums(tr);
    lemma_run_guard_pending_bound(tr);
}

/// Replays a history through a fresh dispatcher, returning how many
/// changes it suppressed and how many device writes it let through. Every
/// event goes through [`SliderSync::handle_event`] itself, so what comes
/// out is what the dispatcher really does — and it is exactly
/// [`run_guard`] of the history.
pub fn run_trace(events: &Vec<TraceEvent>) -> (r: (u64, u64))
    requires
        events@.len() < u64::MAX,
    ensures
        r.0 == run_guard(events@).1,
        r.1 == run_guard(events@).2,
{
    let mut sync = SliderSync::new();
    let mut suppressed: u64 = 0;
    let mut writes: u64 = 0;
    let mut i: usize = 0;
    // The history view carries no slider positions; any fixed fraction
    // stands in for them, since the guard never reads the value.
    let probe = Fraction { num: 0, den: 1 };
    while i < events.len()
        invariant
            i <= events@.len(),
            events@.len() < u64::MAX,
            run_guard(events@.take(i as int)) == (
                sync.guard.pending as nat,
                suppressed as nat,
                writes as nat,
            ),
        decreases events@.len() - i,
    {
        proof {
            assert(events@.take(i + 1).drop_last() =~= events@.take(i as int));
            lemma_run_guard_sums(events@.take(i as int));
            lemma_counts_le_len(events@.take(i as int));
        }
        let e = match events[i] {
            TraceEvent::Notification => SliderEvent::Notification(probe),
            TraceEvent::SyntheticChange => SliderEvent::SliderChanged(probe),
            TraceEvent::UserChange => SliderEvent::SliderChanged(probe),
        };
        match sync.handle_event(e) {
            SliderAction::SetSlider(_) => (),
            SliderAction::Ignore => {
                suppressed = suppressed + 1;
            },
            SliderAction::WriteVolume(_) => {
                writes = writes + 1;
            },
        }
        i += 1;
    }
    proof {
        assert(events@.take(events@.len() as int) =~= events@);
    }
    (suppressed, writes)
}

} // verus!
