use futures::channel::mpsc::UnboundedReceiver;
use futures::channel::mpsc::UnboundedSender;
use vstd::prelude::*;

verus! {

/// The change token broadcast to listeners. It means "something about the
/// output devices changed — re-query" and carries no payload; listeners
/// re-fetch the volume themselves.
pub struct AudioSinksUpdate;

#[verifier::external_type_specification]
#[verifier::external_body]
#[verifier::reject_recursive_types(T)]
pub struct ExUnboundedSender<T>(UnboundedSender<T>);

#[verifier::external_type_specification]
#[verifier::external_body]
#[verifier::reject_recursive_types(T)]
pub struct ExUnboundedReceiver<T>(UnboundedReceiver<T>);

/// Relies on futures::channel::mpsc::unbounded: builds a connected
/// sender/receiver pair of an unbounded first-in-first-out queue.
#[verifier::external_body]
fn notification_channel() -> (r: (
    UnboundedSender<AudioSinksUpdate>,
    UnboundedReceiver<AudioSinksUpdate>,
)) {
    futures::channel::mpsc::unbounded()
}

/// Relies on UnboundedSender::is_closed: true once the receiving half has
/// been dropped or the channel closed. The result depends on state outside
/// this crate, so nothing is promised of it.
#[verifier::external_body]
fn sender_is_closed(s: &UnboundedSender<AudioSinksUpdate>) -> bool {
    s.is_closed()
}

/// Relies on UnboundedSender::unbounded_send: queues the message for the
/// receiver and returns Ok, or refuses it with a disconnection error once
/// the channel is closed. The outcome is handed back as a plain flag; it
/// depends on state outside this crate, so nothing is promised of it.
#[verifier::external_body]
fn send_update(s: &UnboundedSender<AudioSinksUpdate>, update: AudioSinksUpdate) -> bool {
    s.unbounded_send(update).is_ok()
}

/// The volume broadcast hub: one shared audio handle fans change
/// notifications out to any number of independently subscribed listeners,
/// each over its own unbounded channel.
///
/// Per listener the hub keeps the sending half of the channel, a flag
/// saying whether the channel has been detected closed, and — as a ghost
/// ledger — how many tokens were delivered to it. A channel whose receiver
/// is gone is detected lazily at the next broadcast and skipped from then
/// on, never written to again and never actively pruned; a closed channel
/// is an expected steady state, not an error.
pub struct Audio {
    pub senders: Vec<UnboundedSender<AudioSinksUpdate>>,
    pub dropped: Vec<bool>,
    pub sent: Ghost<Seq<nat>>,
}

impl Audio {
    /// One entry of each ledger per listener.
    pub open spec fn wf(self) -> bool {
        self.senders@.len() == self.dropped@.len() && self.dropped@.len() == self.sent@.len()
    }

    /// A hub with no listeners. The backend connection that feeds it lives
    /// with the caller; the hub itself only fans tokens out.
    pub fn new() -> (r: Audio)
        ensures
            r.wf(),
            r.dropped@.len() == 0,
    {
        Audio { senders: Vec::new(), dropped: Vec::new(), sent: Ghost(Seq::empty()) }
    }

    /// Registers a new listener channel and hands back its receiving end:
    /// a lazy, open-ended feed of change tokens that never completes on its
    /// own. Existing listeners are untouched.
    pub fn subscribe_raw(&mut self) -> (r: UnboundedReceiver<AudioSinksUpdate>)
        requires
            old(self).wf(),
        ensures
            final(self).wf(),
            final(self).dropped@ == old(self).dropped@.push(false),
            final(self).sent@ == old(self).sent@.push(0nat),
    {
        let (tx, rx) = notification_channel();
        self.senders.push(tx);
        self.dropped.push(false);
        self.sent = Ghost(self.sent@.push(0nat));
        rx
    }

    /// Broadcasts one change token to every listener not yet detected
    /// closed.
    ///
    /// A listener already detected closed is never written to again: its
    /// flag stays set and its delivery count stays put. Every other
    /// listener either receives exactly one token, or is found closed right
    /// now — detected lazily, at this send attempt — receives nothing, and
    /// is skipped from the next broadcast on.
    pub fn update_subscribers(&mut self)
        requires
            old(self).wf(),
        ensures
            final(self).wf(),
            final(self).dropped@.len() == old(self).dropped@.len(),
            forall|i: int|
                #![all_triggers]
                0 <= i < old(self).dropped@.len() && old(self).dropped@[i]
                    ==> (final(self).dropped@[i] && final(self).sent@[i] == old(self).sent@[i]),
            forall|i: int|
                #![all_triggers]
                0 <= i < old(self).dropped@.len() && !old(self).dropped@[i]
                    ==> ((final(self).sent@[i] == old(self).sent@[i] + 1
                    && !final(self).dropped@[i]) || (final(self).sent@[i] == old(self).sent@[i]
                    && final(self).dropped@[i])),
    {
        let ghost pre = *self;
        let n: usize = self.senders.len();
        let mut i: usize = 0;
        while i < n
            invariant
                i <= n,
                self.wf(),
                pre.wf(),
                pre == *old(self),
                n == pre.dropped@.len(),
                self.senders@.len() == n,
                forall|j: int|
                    #![all_triggers]
                    i <= j < n ==> (self.dropped@[j] == pre.dropped@[j] && self.sent@[j]
                        == pre.sent@[j]),
                forall|j: int|
                    #![all_triggers]
                    0 <= j < i && pre.dropped@[j] ==> (self.dropped@[j] && self.sent@[j]
                        == pre.sent@[j]),
                forall|j: int|
                    #![all_triggers]
                    0 <= j < i && !pre.dropped@[j] ==> ((self.sent@[j] == pre.sent@[j] + 1
                        && !self.dropped@[j]) || (self.sent@[j] == pre.sent@[j]
                        && self.dropped@[j])),
            decreases n - i,
        {
            if !self.dropped[i] {
                if sender_is_closed(&self.senders[i]) {
                    self.dropped[i] = true;
                } else {
                    let delivered = send_update(&self.senders[i], AudioSinksUpdate);
                    if delivered {
                        self.sent = Ghost(
                            self.sent@.update(i as int, (self.sent@[i as int] + 1) as nat),
                        );
                    } else {
                        self.dropped[i] = true;
                    }
                }
            }
            i += 1;
        }
    }

    /// How many listener channels are registered, closed ones included:
    /// they are skipped at each broadcast, not pruned.
    pub fn listener_count(&self) -> (r: usize)
        requires
            self.wf(),
        ensures
            r == self.dropped@.len(),
    {
        self.dropped.len()
    }

    /// Whether this listener's channel was detected closed at an earlier
    /// broadcast. Detection is lazy: a dropped receiver is noticed at the
    /// next broadcast after the drop, never eagerly.
    pub fn listener_detected_closed(&self, i: usize) -> (r: bool)
        requires
            self.wf(),
            i < self.dropped@.len(),
        ensures
            r == self.dropped@[i as int],
    {
        self.dropped[i]
    }
}

} // verus!
