//! The notification fan-out: one subscription per live connection, each
//! bound to a recipient. An event is handed to the subscriptions that are
//! there for its recipient when it is published and to nobody else, ever:
//! nothing is queued for the absent and nothing is replayed.

use crate::ident::UserId;
use crate::notification::model::{NotificationPayload, NotificationPayloadView};
use vstd::prelude::*;

verus! {

/// One live subscription.
pub struct Subscription {
    pub id: u64,
    pub recipient: UserId,
    /// Events delivered and not yet taken, oldest first.
    pub inbox: Vec<NotificationPayload>,
}

/// The mathematical content of a [`Subscription`].
pub struct SubscriptionView {
    pub id: u64,
    pub recipient: UserId,
    pub inbox: Seq<NotificationPayloadView>,
}

/// The views of a list of events, in order.
pub open spec fn payload_views(events: Seq<NotificationPayload>) -> Seq<NotificationPayloadView> {
    events.map_values(|e: NotificationPayload| e@)
}

impl View for Subscription {
    type V = SubscriptionView;

    open spec fn view(&self) -> SubscriptionView {
        SubscriptionView {
            id: self.id,
            recipient: self.recipient,
            inbox: payload_views(self.inbox@),
        }
    }
}

/// The views of a list of subscriptions, in order.
pub open spec fn subscription_views(subs: Seq<Subscription>) -> Seq<SubscriptionView> {
    subs.map_values(|s: Subscription| s@)
}

/// The hub as a mathematical value.
pub struct HubView {
    pub subscriptions: Seq<SubscriptionView>,
    /// The id that the next subscription gets.
    pub next_id: u64,
}

/// What a subscription looks like after an event was published: the event
/// is at the end of the inbox if it is for this subscription's recipient.
pub open spec fn after_delivery(s: SubscriptionView, event: NotificationPayloadView) -> SubscriptionView {
    if s.recipient == event.recipient_id {
        SubscriptionView { inbox: s.inbox.push(event), ..s }
    } else {
        s
    }
}

/// How many of the subscriptions are for the recipient.
pub open spec fn listeners(subs: Seq<SubscriptionView>, recipient: UserId) -> nat
    decreases subs.len(),
{
    if subs.len() == 0 {
        0
    } else {
        listeners(subs.drop_last(), recipient) + if subs.last().recipient == recipient {
            1nat
        } else {
            0nat
        }
    }
}

impl HubView {
    /// The hub with no subscriptions.
    pub open spec fn empty() -> HubView {
        HubView { subscriptions: Seq::empty(), next_id: 0 }
    }

    /// Subscription ids are handed out once: every id in use is below the
    /// next one and no two subscriptions share an id.
    pub open spec fn wf(self) -> bool {
        &&& forall|i: int|
            0 <= i < self.subscriptions.len() ==> (#[trigger] self.subscriptions[i]).id
                < self.next_id
        &&& forall|i: int, j: int|
            0 <= i < j < self.subscriptions.len() ==> (#[trigger] self.subscriptions[i]).id != (
            #[trigger] self.subscriptions[j]).id
    }

    /// Whether a subscription with this id is live.
    pub open spec fn has(self, id: u64) -> bool {
        exists|i: int| 0 <= i < self.subscriptions.len() && (#[trigger] self.subscriptions[i]).id == id
    }

    /// Where the subscription with this id stands.
    pub open spec fn index_of(self, id: u64) -> int {
        choose|i: int| 0 <= i < self.subscriptions.len() && (#[trigger] self.subscriptions[i]).id == id
    }

    /// The events waiting in the inbox of a subscription; none when there
    /// is no such subscription.
    pub open spec fn inbox(self, id: u64) -> Seq<NotificationPayloadView> {
        if self.has(id) {
            self.subscriptions[self.index_of(id)].inbox
        } else {
            Seq::empty()
        }
    }

    /// Whose events a subscription receives.
    pub open spec fn recipient_of(self, id: u64) -> UserId {
        self.subscriptions[self.index_of(id)].recipient
    }

    /// The hub after a run of events was published, one after the other.
    pub open spec fn published_all(self, events: Seq<NotificationPayloadView>) -> HubView
        decreases events.len(),
    {
        if events.len() == 0 {
            self
        } else {
            self.published_all(events.drop_last()).published(events.last())
        }
    }

    /// The hub with one more subscription, for `recipient`.
    pub open spec fn subscribed(self, recipient: UserId) -> HubView {
        HubView {
            subscriptions: self.subscriptions.push(
                SubscriptionView { id: self.next_id, recipient, inbox: Seq::empty() },
            ),
            next_id: (self.next_id + 1) as u64,
        }
    }

    /// The hub after an event was published.
    pub open spec fn published(self, event: NotificationPayloadView) -> HubView {
        HubView {
            subscriptions: self.subscriptions.map_values(
                |s: SubscriptionView| after_delivery(s, event),
            ),
            ..self
        }
    }

    /// The hub without the subscription of this id.
    pub open spec fn unsubscribed(self, id: u64) -> HubView {
        if self.has(id) {
            HubView { subscriptions: self.subscriptions.remove(self.index_of(id)), ..self }
        } else {
            self
        }
    }

    /// The hub with the inbox of a subscription emptied.
    pub open spec fn drained(self, id: u64) -> HubView {
        if self.has(id) {
            HubView {
                subscriptions: self.subscriptions.update(
                    self.index_of(id),
                    SubscriptionView {
                        inbox: Seq::empty(),
                        ..self.subscriptions[self.index_of(id)]
                    },
                ),
                ..self
            }
        } else {
            self
        }
    }

    /// In an orderly hub an id names at most one subscription.
    pub proof fn lemma_found(self, i: int)
        requires
            self.wf(),
            0 <= i < self.subscriptions.len(),
        ensures
            self.has(self.subscriptions[i].id),
            self.index_of(self.subscriptions[i].id) == i,
    {
        let id = self.subscriptions[i].id;
        assert(self.has(id));
        let j = self.index_of(id);
        if i < j {
            assert(self.subscriptions[i].id != self.subscriptions[j].id);
        } else if j < i {
            assert(self.subscriptions[j].id != self.subscriptions[i].id);
        }
    }

    /// Publishing leaves the hub orderly.
    pub proof fn lemma_published_wf(self, event: NotificationPayloadView)
        requires
            self.wf(),
        ensures
            self.published(event).wf(),
    {
        let after = self.published(event);
        assert forall|a: int, b: int| 0 <= a < b < after.subscriptions.len() implies (
        #[trigger] after.subscriptions[a]).id != (#[trigger] after.subscriptions[b]).id by {
            assert(self.subscriptions[a].id != self.subscriptions[b].id);
        }
        assert forall|a: int| 0 <= a < after.subscriptions.len() implies (
        #[trigger] after.subscriptions[a]).id < after.next_id by {
            assert(self.subscriptions[a].id < self.next_id);
        }
    }

    /// Publishing reaches exactly the subscriptions of the recipient: each
    /// of them gets the event once, at the end of its inbox, and every
    /// other inbox stays as it was.
    pub proof fn lemma_published(self, event: NotificationPayloadView, id: u64)
        requires
            self.wf(),
            self.has(id),
        ensures
            self.published(event).wf(),
            self.published(event).has(id),
            self.published(event).recipient_of(id) == self.recipient_of(id),
            self.subscriptions[self.index_of(id)].recipient == event.recipient_id
                ==> self.published(event).inbox(id) == self.inbox(id).push(event),
            self.subscriptions[self.index_of(id)].recipient != event.recipient_id
                ==> self.published(event).inbox(id) == self.inbox(id),
    {
        let after = self.published(event);
        let i = self.index_of(id);
        assert(after.subscriptions[i].id == id);
        assert forall|a: int, b: int| 0 <= a < b < after.subscriptions.len() implies (
        #[trigger] after.subscriptions[a]).id != (#[trigger] after.subscriptions[b]).id by {
            assert(self.subscriptions[a].id != self.subscriptions[b].id);
        }
        assert forall|a: int| 0 <= a < after.subscriptions.len() implies (
        #[trigger] after.subscriptions[a]).id < after.next_id by {
            assert(self.subscriptions[a].id < self.next_id);
        }
        after.lemma_found(i);
    }
}

/// The events of a run that are for the recipient, in the order of the
/// run.
pub open spec fn addressed_to(events: Seq<NotificationPayloadView>, recipient: UserId) -> Seq<
    NotificationPayloadView,
>
    decreases events.len(),
{
    if events.len() == 0 {
        Seq::empty()
    } else if events.last().recipient_id == recipient {
        addressed_to(events.drop_last(), recipient).push(events.last())
    } else {
        addressed_to(events.drop_last(), recipient)
    }
}

/// Delivery. Of any run of events published while a subscription is live,
/// the subscription receives exactly those that are for its recipient, each
/// once and in the order they were published, behind what it held before;
/// events for others never reach it.
pub proof fn law_delivery_in_order(hub: HubView, events: Seq<NotificationPayloadView>, id: u64)
    requires
        hub.wf(),
        hub.has(id),
    ensures
        hub.published_all(events).wf(),
        hub.published_all(events).has(id),
        hub.published_all(events).recipient_of(id) == hub.recipient_of(id),
        hub.published_all(events).inbox(id) == hub.inbox(id) + addressed_to(
            events,
            hub.recipient_of(id),
        ),
    decreases events.len(),
{
    if events.len() > 0 {
        let before = hub.published_all(events.drop_last());
        law_delivery_in_order(hub, events.drop_last(), id);
        before.lemma_published(events.last(), id);
        let kept = addressed_to(events.drop_last(), hub.recipient_of(id));
        if events.last().recipient_id == hub.recipient_of(id) {
            assert((hub.inbox(id) + kept).push(events.last()) =~= hub.inbox(id) + kept.push(
                events.last(),
            ));
        }
    } else {
        assert(hub.inbox(id) + Seq::<NotificationPayloadView>::empty() =~= hub.inbox(id));
    }
}

/// A subscription starts empty and ends for good: what was published
/// before it was opened is not in its inbox, and once it is closed nothing
/// is held for it, whatever is published.
pub proof fn law_no_delivery_to_the_absent(
    hub: HubView,
    recipient: UserId,
    events: Seq<NotificationPayloadView>,
    id: u64,
)
    requires
        hub.wf(),
        hub.next_id < u64::MAX,
    ensures
        hub.published_all(events).wf(),
        hub.published_all(events).next_id == hub.next_id,
        hub.published_all(events).subscribed(recipient).inbox(hub.next_id) == Seq::<
            NotificationPayloadView,
        >::empty(),
        !hub.has(id) ==> !hub.published_all(events).has(id) && hub.published_all(events).inbox(
            id,
        ) == Seq::<NotificationPayloadView>::empty(),
        !hub.unsubscribed(id).has(id),
    decreases events.len(),
{
    let now = hub.published_all(events);
    if events.len() > 0 {
        let before = hub.published_all(events.drop_last());
        law_no_delivery_to_the_absent(hub, recipient, events.drop_last(), id);
        before.lemma_published_wf(events.last());
        if now.has(id) {
            let i = now.index_of(id);
            assert(before.subscriptions[i].id == id);
            assert(before.has(id));
        }
    }
    let opened = now.subscribed(recipient);
    let last = opened.subscriptions.len() - 1;
    assert(opened.subscriptions[last].id == hub.next_id);
    assert(opened.has(hub.next_id));
    let found = opened.index_of(hub.next_id);
    if found < last {
        assert(opened.subscriptions[found] == now.subscriptions[found]);
        assert(now.subscriptions[found].id < now.next_id);
    }
    if hub.has(id) {
        let k = hub.index_of(id);
        let closed = hub.unsubscribed(id);
        if closed.has(id) {
            let j = closed.index_of(id);
            let j0 = if j < k { j } else { j + 1 };
            assert(closed.subscriptions[j] == hub.subscriptions[j0]);
            hub.lemma_found(k);
            hub.lemma_found(j0);
        }
    }
}

/// The fan-out hub.
pub struct NotificationHub {
    subscriptions: Vec<Subscription>,
    next_id: u64,
}

impl View for NotificationHub {
    type V = HubView;

    closed spec fn view(&self) -> HubView {
        HubView { subscriptions: subscription_views(self.subscriptions@), next_id: self.next_id }
    }
}

impl NotificationHub {
    /// A hub with no subscriptions.
    pub fn new() -> (r: Self)
        ensures
            r@ == HubView::empty(),
            r@.wf(),
    {
        let r = NotificationHub { subscriptions: Vec::new(), next_id: 0 };
        assert(r@.subscriptions =~= Seq::<SubscriptionView>::empty());
        r
    }

    fn position(&self, id: u64) -> (r: Option<usize>)
        requires
            self@.wf(),
        ensures
            r is Some == self@.has(id),
            r is Some ==> r->0 < self.subscriptions.len() && r->0 == self@.index_of(id),
    {
        let mut i: usize = 0;
        while i < self.subscriptions.len()
            invariant
                self@.wf(),
                i <= self.subscriptions.len(),
                forall|j: int| 0 <= j < i ==> (#[trigger] self@.subscriptions[j]).id != id,
            decreases self.subscriptions.len() - i,
        {
            if self.subscriptions[i].id == id {
                proof {
                    assert(self@.subscriptions[i as int].id == id);
                    self@.lemma_found(i as int);
                }
                return Some(i);
            }
            i += 1;
        }
        None
    }

    /// Opens a subscription for `recipient` and hands back its id, or
    /// nothing when the ids have run out.
    pub fn subscribe(&mut self, recipient: UserId) -> (r: Option<u64>)
        requires
            old(self)@.wf(),
        ensures
            final(self)@.wf(),
            r is Some == (old(self)@.next_id < u64::MAX),
            r is Some ==> r->0 == old(self)@.next_id && final(self)@ == old(self)@.subscribed(
                recipient,
            ),
            r is None ==> final(self)@ == old(self)@,
    {
        if self.next_id == u64::MAX {
            return None;
        }
        let id = self.next_id;
        self.subscriptions.push(Subscription { id, recipient, inbox: Vec::new() });
        self.next_id = id + 1;
        proof {
            let fresh = SubscriptionView { id, recipient, inbox: Seq::empty() };
            assert(self.subscriptions@[self.subscriptions@.len() - 1]@.inbox =~= Seq::<
                NotificationPayloadView,
            >::empty());
            assert(self@.subscriptions =~= old(self)@.subscriptions.push(fresh));
            let s = self@;
            assert forall|a: int, b: int| 0 <= a < b < s.subscriptions.len() implies (
            #[trigger] s.subscriptions[a]).id != (#[trigger] s.subscriptions[b]).id by {
                assert(s.subscriptions[a] == old(self)@.subscriptions[a]);
                if b < s.subscriptions.len() - 1 {
                    assert(s.subscriptions[b] == old(self)@.subscriptions[b]);
                }
            }
            assert forall|a: int| 0 <= a < s.subscriptions.len() implies (
            #[trigger] s.subscriptions[a]).id < s.next_id by {
                if a < s.subscriptions.len() - 1 {
                    assert(s.subscriptions[a] == old(self)@.subscriptions[a]);
                }
            }
        }
        Some(id)
    }

    /// Closes a subscription and says whether there was one. What waited
    /// in its inbox is gone.
    pub fn unsubscribe(&mut self, id: u64) -> (r: bool)
        requires
            old(self)@.wf(),
        ensures
            final(self)@.wf(),
            r == old(self)@.has(id),
            final(self)@ == old(self)@.unsubscribed(id),
    {
        match self.position(id) {
            Some(i) => {
                self.subscriptions.remove(i);
                proof {
                    let before = old(self)@;
                    assert(self@.subscriptions =~= before.subscriptions.remove(i as int));
                    let s = self@;
                    assert forall|a: int, b: int| 0 <= a < b < s.subscriptions.len() implies (
                    #[trigger] s.subscriptions[a]).id != (#[trigger] s.subscriptions[b]).id by {
                        let a0 = if a < i { a } else { a + 1 };
                        let b0 = if b < i { b } else { b + 1 };
                        assert(s.subscriptions[a] == before.subscriptions[a0]);
                        assert(s.subscriptions[b] == before.subscriptions[b0]);
                    }
                    assert forall|a: int| 0 <= a < s.subscriptions.len() implies (
                    #[trigger] s.subscriptions[a]).id < s.next_id by {
                        let a0 = if a < i { a } else { a + 1 };
                        assert(s.subscriptions[a] == before.subscriptions[a0]);
                    }
                }
                true
            },
            None => false,
        }
    }

    /// Publishes an event: every subscription of its recipient gets a copy
    /// at the end of its inbox. Hands back how many there were.
    pub fn publish(&mut self, event: &NotificationPayload) -> (r: usize)
        requires
            old(self)@.wf(),
        ensures
            final(self)@.wf(),
            final(self)@ == old(self)@.published(event@),
            r == listeners(old(self)@.subscriptions, event@.recipient_id),
    {
        let mut delivered: usize = 0;
        let mut i: usize = 0;
        let ghost before = self@;
        while i < self.subscriptions.len()
            invariant
                i <= self.subscriptions.len(),
                self.subscriptions.len() == before.subscriptions.len(),
                self.next_id == before.next_id,
                delivered <= i,
                delivered == listeners(before.subscriptions.take(i as int), event@.recipient_id),
                forall|j: int|
                    0 <= j < i ==> (#[trigger] self@.subscriptions[j]) == after_delivery(
                        before.subscriptions[j],
                        event@,
                    ),
                forall|j: int|
                    i <= j < self.subscriptions.len() ==> (#[trigger] self@.subscriptions[j])
                        == before.subscriptions[j],
            decreases self.subscriptions.len() - i,
        {
            proof {
                assert(before.subscriptions.take(i as int + 1).drop_last()
                    =~= before.subscriptions.take(i as int));
                assert(self@.subscriptions[i as int] == before.subscriptions[i as int]);
            }
            if self.subscriptions[i].recipient == event.recipient_id {
                let ghost prior = self@;
                let copy = event.clone();
                self.subscriptions[i].inbox.push(copy);
                proof {
                    assert(self@.subscriptions[i as int].inbox =~= before.subscriptions[i as int].inbox.push(
                        event@,
                    ));
                    assert forall|j: int| 0 <= j < self.subscriptions.len() && j != i implies (
                    #[trigger] self@.subscriptions[j]) == prior.subscriptions[j] by {}
                }
                delivered += 1;
            }
            i += 1;
        }
        proof {
            assert(before.subscriptions.take(i as int) =~= before.subscriptions);
            assert(self@.subscriptions =~= before.published(event@).subscriptions);
            if before.subscriptions.len() > 0 {
                before.lemma_found(0);
                before.lemma_published(event@, before.subscriptions[0].id);
            } else {
                assert(self@.wf());
            }
        }
        delivered
    }

    /// Takes the events waiting in the inbox of a subscription, oldest
    /// first. Each event is handed out once.
    pub fn take(&mut self, id: u64) -> (r: Vec<NotificationPayload>)
        requires
            old(self)@.wf(),
        ensures
            final(self)@.wf(),
            payload_views(r@) == old(self)@.inbox(id),
            final(self)@ == old(self)@.drained(id),
    {
        match self.position(id) {
            Some(i) => {
                let ghost before = self@;
                let mut taken: Vec<NotificationPayload> = Vec::new();
                std::mem::swap(&mut taken, &mut self.subscriptions[i].inbox);
                proof {
                    let s = self@;
                    assert(s.subscriptions[i as int].inbox =~= Seq::<NotificationPayloadView>::empty());
                    assert(s.subscriptions =~= before.drained(id).subscriptions);
                    assert forall|a: int, b: int| 0 <= a < b < s.subscriptions.len() implies (
                    #[trigger] s.subscriptions[a]).id != (#[trigger] s.subscriptions[b]).id by {
                        assert(before.subscriptions[a].id != before.subscriptions[b].id);
                    }
                    assert forall|a: int| 0 <= a < s.subscriptions.len() implies (
                    #[trigger] s.subscriptions[a]).id < s.next_id by {
                        assert(before.subscriptions[a].id < before.next_id);
                    }
                }
                taken
            },
            None => {
                let none: Vec<NotificationPayload> = Vec::new();
                assert(payload_views(none@) =~= Seq::<NotificationPayloadView>::empty());
                none
            },
        }
    }

    /// How many subscriptions are live.
    pub fn len(&self) -> (r: usize)
        ensures
            r == self@.subscriptions.len(),
    {
        self.subscriptions.len()
    }
}

} // verus!
