//! The signal bus of a provisioning session: overwrite-latest mailboxes and
//! the end-of-session broadcast.
//!
//! Every operation is one short synchronous section on exclusively borrowed
//! state; waiting between two of them is the caller's business.
//!
//! The bus is plain state of the library and not a channel that is changed
//! through shared references: what a subscriber of such a channel finds
//! changes while the subscriber itself does not, so no contract could say
//! who receives a publication. Here a subscriber is a place on the bus, and
//! every operation says what the bus held before and what it holds after.

use crate::structs::ConnectionOutcome;
use crate::structs::ScanEntry;
use vstd::prelude::*;

verus! {

/// A single slot that keeps only the value written last.
#[derive(Debug)]
pub struct Mailbox<T> {
    slot: Option<T>,
}

impl<T> View for Mailbox<T> {
    type V = Option<T>;

    closed spec fn view(&self) -> Option<T> {
        self.slot
    }
}

impl<T> Mailbox<T> {
    /// An empty mailbox.
    pub fn new() -> (r: Self)
        ensures
            r@ is None,
    {
        Mailbox { slot: None }
    }

    /// Writes a value over whatever the slot held.
    pub fn signal(&mut self, val: T)
        ensures
            final(self)@ == Some(val),
    {
        self.slot = Some(val);
    }

    /// Whether a value is waiting. The value stays.
    pub fn signaled(&self) -> (r: bool)
        ensures
            r == self@ is Some,
    {
        self.slot.is_some()
    }

    /// Takes the waiting value out, if there is one.
    pub fn try_take(&mut self) -> (r: Option<T>)
        ensures
            r == old(self)@,
            final(self)@ is None,
    {
        self.slot.take()
    }

    /// Discards the waiting value, if there is one.
    pub fn reset(&mut self)
        ensures
            final(self)@ is None,
    {
        self.slot = None;
    }

    /// The waiting value, left in place.
    pub fn latest(&self) -> (r: Option<&T>)
        ensures
            r matches Some(v) ==> self@ == Some(*v),
            r is None ==> self@ is None,
    {
        self.slot.as_ref()
    }
}

/// State of one place of the end-of-session broadcast.
#[derive(Clone, Copy, Debug, PartialEq, Eq, Structural)]
pub enum Subscription {
    /// Nobody holds the place.
    Free,
    /// A subscriber holds the place and has nothing to receive.
    Listening,
    /// A subscriber holds the place and a publication waits for it.
    Notified,
}

/// Number of places of the end-of-session broadcast.
pub const MAX_SUBSCRIBERS: usize = 16;

/// What a publication makes of one place.
pub open spec fn after_publish(s: Subscription) -> Subscription {
    match s {
        Subscription::Free => Subscription::Free,
        _ => Subscription::Notified,
    }
}

/// One-shot fan-out: a publication reaches every subscriber registered before
/// it, once, and nobody who registers later.
pub struct EndBroadcast {
    places: [Subscription; 16],
    published: Ghost<nat>,
}

impl EndBroadcast {
    /// The state of each place, by subscriber id.
    pub closed spec fn places(&self) -> Seq<Subscription> {
        self.places@
    }

    /// How many publications were made.
    pub closed spec fn published(&self) -> nat {
        self.published@
    }

    /// How many publications were made since the broadcast was as `before`.
    pub open spec fn published_since(&self, before: &EndBroadcast) -> int {
        self.published() - before.published()
    }

    /// There are exactly `MAX_SUBSCRIBERS` places.
    pub open spec fn wf(&self) -> bool {
        self.places().len() == MAX_SUBSCRIBERS
    }

    /// Every broadcast has exactly `MAX_SUBSCRIBERS` places.
    pub proof fn lemma_wf(&self)
        ensures
            self.wf(),
    {
        vstd::array::array_len_matches_n(&self.places);
    }

    /// Whether `id` is held by a subscriber.
    pub open spec fn is_subscribed(&self, id: int) -> bool {
        0 <= id < self.places().len() && self.places()[id] != Subscription::Free
    }

    /// Whether a publication waits for `id`.
    pub open spec fn is_notified(&self, id: int) -> bool {
        0 <= id < self.places().len() && self.places()[id] == Subscription::Notified
    }

    /// Whether `id` is the lowest free place.
    pub open spec fn first_free(&self, id: int) -> bool {
        &&& 0 <= id < self.places().len()
        &&& self.places()[id] == Subscription::Free
        &&& forall|j: int| 0 <= j < id ==> self.places()[j] != Subscription::Free
    }

    /// Whether every place is held.
    pub open spec fn full(&self) -> bool {
        forall|j: int| 0 <= j < self.places().len() ==> self.places()[j] != Subscription::Free
    }

    /// What a subscription with result `r` makes of the places that were
    /// `before`: the lowest free place is taken and listens, or nothing
    /// changes where every place was held.
    pub open spec fn subscribed_after(&self, before: &EndBroadcast, r: Option<usize>) -> bool {
        match r {
            Some(id) => before.first_free(id as int) && self.places() == before.places().update(
                id as int,
                Subscription::Listening,
            ),
            None => before.full() && self.places() == before.places(),
        }
    }

    /// What a publication makes of the places.
    pub open spec fn published_to(&self, old_places: Seq<Subscription>) -> bool {
        &&& self.places().len() == old_places.len()
        &&& forall|i: int| 0 <= i < old_places.len() ==> #[trigger] self.places()[i] == after_publish(old_places[i])
    }

    /// A broadcast without subscribers or publications.
    pub fn new() -> (r: Self)
        ensures
            r.wf(),
            r.published() == 0,
            forall|i: int| 0 <= i < MAX_SUBSCRIBERS ==> r.places()[i] == Subscription::Free,
    {
        EndBroadcast { places: [Subscription::Free; 16], published: Ghost(0) }
    }

    /// Registers a subscriber at the lowest free place and returns its id;
    /// `None` exactly when every place is held.
    pub fn subscribe(&mut self) -> (r: Option<usize>)
        ensures
            old(self).wf(),
            final(self).wf(),
            final(self).published() == old(self).published(),
            final(self).subscribed_after(old(self), r),
    {
        proof {
            self.lemma_wf();
        }
        let mut i: usize = 0;
        while i < MAX_SUBSCRIBERS
            invariant
                *self == *old(self),
                self.places@.len() == MAX_SUBSCRIBERS,
                i <= MAX_SUBSCRIBERS,
                forall|j: int| 0 <= j < i ==> self.places@[j] != Subscription::Free,
            decreases MAX_SUBSCRIBERS - i,
        {
            if self.places[i] == Subscription::Free {
                self.places[i] = Subscription::Listening;
                return Some(i);
            }
            i = i + 1;
        }
        None
    }

    /// Gives up the place `id`; an id out of range changes nothing.
    pub fn unsubscribe(&mut self, id: usize)
        ensures
            old(self).wf(),
            final(self).wf(),
            final(self).published() == old(self).published(),
            id < MAX_SUBSCRIBERS ==> final(self).places() == old(self).places().update(
                id as int,
                Subscription::Free,
            ),
            id >= MAX_SUBSCRIBERS ==> final(self).places() == old(self).places(),
    {
        proof {
            self.lemma_wf();
        }
        if id < MAX_SUBSCRIBERS {
            self.places[id] = Subscription::Free;
        }
    }

    /// Publishes: every subscriber registered now is notified, free places
    /// stay free.
    pub fn publish_immediate(&mut self)
        ensures
            old(self).wf(),
            final(self).wf(),
            final(self).published() == old(self).published() + 1,
            final(self).published_to(old(self).places()),
    {
        proof {
            self.lemma_wf();
        }
        let mut i: usize = 0;
        while i < MAX_SUBSCRIBERS
            invariant
                self.places@.len() == MAX_SUBSCRIBERS,
                old(self).places@.len() == MAX_SUBSCRIBERS,
                self.published@ == old(self).published@,
                i <= MAX_SUBSCRIBERS,
                forall|j: int| 0 <= j < i ==> #[trigger] self.places@[j] == after_publish(old(self).places@[j]),
                forall|j: int| i <= j < MAX_SUBSCRIBERS ==> self.places@[j] == old(self).places@[j],
            decreases MAX_SUBSCRIBERS - i,
        {
            if self.places[i] != Subscription::Free {
                self.places[i] = Subscription::Notified;
            }
            i = i + 1;
        }
        self.published = Ghost((self.published@ + 1) as nat);
    }

    /// Receives the publication that waits for `id`: `true` exactly when one
    /// waited, and then it waits no longer.
    pub fn try_next_message(&mut self, id: usize) -> (r: bool)
        ensures
            old(self).wf(),
            final(self).wf(),
            final(self).published() == old(self).published(),
            r == old(self).is_notified(id as int),
            r ==> final(self).places() == old(self).places().update(id as int, Subscription::Listening),
            !r ==> final(self).places() == old(self).places(),
    {
        proof {
            self.lemma_wf();
        }
        if id < MAX_SUBSCRIBERS && self.places[id] == Subscription::Notified {
            self.places[id] = Subscription::Listening;
            true
        } else {
            false
        }
    }
}

/// The signal bus of one provisioning session.
pub struct WmInnerSignals {
    /// Latest complete scan snapshot, for display.
    pub wifi_scan_res: Mailbox<Vec<ScanEntry>>,
    /// Latest submitted credentials, serialized.
    pub wifi_conn_info_sig: Mailbox<Vec<u8>>,
    /// Outcome of the latest connect attempt, for whoever waits for it.
    pub wifi_conn_res_sig: Mailbox<ConnectionOutcome>,
    /// Tells the listeners that the session is over.
    pub end_signal_pubsub: EndBroadcast,
}

impl WmInnerSignals {
    /// The end-of-session broadcast.
    pub open spec fn end_signal(&self) -> EndBroadcast {
        self.end_signal_pubsub
    }

    /// Whether the mailboxes of two buses hold the same.
    pub open spec fn same_mailboxes(&self, other: &WmInnerSignals) -> bool {
        &&& self.wifi_scan_res == other.wifi_scan_res
        &&& self.wifi_conn_info_sig == other.wifi_conn_info_sig
        &&& self.wifi_conn_res_sig == other.wifi_conn_res_sig
    }

    /// Whether the bus is as a session finds it: empty mailboxes, no
    /// subscriber, nothing published.
    pub open spec fn is_fresh(&self) -> bool {
        &&& self.end_signal().wf()
        &&& self.wifi_scan_res@ is None
        &&& self.wifi_conn_info_sig@ is None
        &&& self.wifi_conn_res_sig@ is None
        &&& self.end_signal().published() == 0
        &&& forall|i: int| 0 <= i < MAX_SUBSCRIBERS ==> !self.end_signal().is_subscribed(i)
    }

    /// A fresh bus, as every session begins with.
    pub fn new() -> (r: Self)
        ensures
            r.is_fresh(),
    {
        WmInnerSignals {
            wifi_scan_res: Mailbox::new(),
            wifi_conn_info_sig: Mailbox::new(),
            wifi_conn_res_sig: Mailbox::new(),
            end_signal_pubsub: EndBroadcast::new(),
        }
    }

    /// Registers a listener for the end of the session; `None` exactly when
    /// all places are held.
    pub fn end_subscribe(&mut self) -> (r: Option<usize>)
        ensures
            final(self).same_mailboxes(old(self)),
            final(self).end_signal().wf(),
            final(self).end_signal().published() == old(self).end_signal().published(),
            final(self).end_signal().subscribed_after(&old(self).end_signal(), r),
    {
        self.end_signal_pubsub.subscribe()
    }

    /// Whether the end of the session was signalled to listener `id` since it
    /// registered or last asked; a `true` is given once.
    pub fn end_signalled(&mut self, id: usize) -> (r: bool)
        ensures
            final(self).same_mailboxes(old(self)),
            final(self).end_signal().wf(),
            final(self).end_signal().published() == old(self).end_signal().published(),
            r == old(self).end_signal().is_notified(id as int),
            r ==> final(self).end_signal().places() == old(self).end_signal().places().update(
                id as int,
                Subscription::Listening,
            ),
            !r ==> final(self).end_signal().places() == old(self).end_signal().places(),
    {
        self.end_signal_pubsub.try_next_message(id)
    }

    /// Gives up the place of listener `id`.
    pub fn end_unsubscribe(&mut self, id: usize)
        ensures
            final(self).same_mailboxes(old(self)),
            final(self).end_signal().wf(),
            final(self).end_signal().published() == old(self).end_signal().published(),
            id < MAX_SUBSCRIBERS ==> final(self).end_signal().places() == old(self).end_signal().places().update(
                id as int,
                Subscription::Free,
            ),
            id >= MAX_SUBSCRIBERS ==> final(self).end_signal().places() == old(self).end_signal().places(),
    {
        self.end_signal_pubsub.unsubscribe(id)
    }

    /// Signals the end of the session to every listener registered now.
    pub fn signal_end(&mut self)
        ensures
            final(self).same_mailboxes(old(self)),
            final(self).end_signal().wf(),
            final(self).end_signal().published() == old(self).end_signal().published() + 1,
            final(self).end_signal().published_to(old(self).end_signal().places()),
    {
        self.end_signal_pubsub.publish_immediate()
    }
}

/// A publication is waiting for exactly those who had subscribed before it:
/// whoever held a place is notified, and a place that was free stays free, so
/// that whoever takes it later finds nothing.
pub proof fn lemma_end_reaches_earlier_subscribers(before: EndBroadcast, after: EndBroadcast, id: int)
    requires
        before.wf(),
        after.wf(),
        0 <= id < MAX_SUBSCRIBERS,
        after.published_to(before.places()),
    ensures
        before.is_subscribed(id) ==> after.is_notified(id),
        !before.is_subscribed(id) ==> !after.is_subscribed(id) && !after.is_notified(id),
{
}

/// Whoever subscribes finds nothing waiting, whatever was published before.
pub proof fn lemma_late_subscriber_misses_end(before: EndBroadcast, after: EndBroadcast, id: int)
    requires
        before.wf(),
        0 <= id < MAX_SUBSCRIBERS,
        after.places() == before.places().update(id, Subscription::Listening),
    ensures
        after.is_subscribed(id),
        !after.is_notified(id),
{
}

/// A publication is received once: after it was taken, nothing waits.
pub proof fn lemma_end_is_received_once(before: EndBroadcast, after: EndBroadcast, id: int)
    requires
        before.wf(),
        before.is_notified(id),
        after.places() == before.places().update(id, Subscription::Listening),
    ensures
        !after.is_notified(id),
        after.is_subscribed(id),
{
}

} // verus!
