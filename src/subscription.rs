//! The notification side of an attribute: whether a peer is subscribed, and the handle through
//! which payloads reach it.
use crate::channel::{pushed, try_push};
use crate::event::{Event, NotifySubscribe};
use futures::channel::mpsc;
use vstd::prelude::*;

verus! {

/// Whether a peer listens for notifications of an attribute, and through which handle.
#[derive(Debug)]
pub enum Subscription {
    Unsubscribed,
    Subscribed(mpsc::Sender<Vec<u8>>),
}

/// Whether `e` changes the subscription, rather than asking for a response.
pub open spec fn is_subscription_event(e: Event) -> bool {
    e is NotifySubscribe || e is NotifyUnsubscribe
}

/// The subscription after `e` arrives in state `s`.
pub open spec fn next(s: Subscription, e: Event) -> Subscription {
    match e {
        Event::NotifySubscribe(n) => Subscription::Subscribed(n.notification),
        Event::NotifyUnsubscribe => Subscription::Unsubscribed,
        _ => s,
    }
}

/// The subscription after `events` arrive in state `s`, first to last.
pub open spec fn after_all(s: Subscription, events: Seq<Event>) -> Subscription
    decreases events.len(),
{
    if events.len() == 0 {
        s
    } else {
        after_all(next(s, events[0]), events.drop_first())
    }
}

/// The read and write requests among `events`, in their order.
pub open spec fn requests_of(events: Seq<Event>) -> Seq<Event>
    decreases events.len(),
{
    if events.len() == 0 {
        Seq::empty()
    } else if is_subscription_event(events[0]) {
        requests_of(events.drop_first())
    } else {
        seq![events[0]] + requests_of(events.drop_first())
    }
}

impl Subscription {
    /// Whether a notification can still be handed to a peer.
    pub open spec fn can_deliver(&self) -> bool {
        self is Subscribed
    }

    /// No peer has subscribed yet.
    pub fn new() -> (r: Self)
        ensures
            r is Unsubscribed,
    {
        Subscription::Unsubscribed
    }

    /// Whether a peer is subscribed.
    pub fn is_subscribed(&self) -> (r: bool)
        ensures
            r == self.can_deliver(),
    {
        match self {
            Subscription::Subscribed(_) => true,
            Subscription::Unsubscribed => false,
        }
    }

    /// Takes in one event. A subscribe or unsubscribe event moves the state; a read or write
    /// request leaves it alone and is handed back to be answered.
    pub fn apply(&mut self, event: Event) -> (rest: Option<Event>)
        ensures
            *final(self) == next(*old(self), event),
            is_subscription_event(event) ==> rest is None,
            !is_subscription_event(event) ==> rest == Some(event),
    {
        match event {
            Event::NotifySubscribe(n) => {
                *self = Subscription::Subscribed(n.notification);
                None
            },
            Event::NotifyUnsubscribe => {
                *self = Subscription::Unsubscribed;
                None
            },
            other => Some(other),
        }
    }

    /// Takes in `events` strictly in their order, and hands back the read and write requests
    /// among them, in the same order.
    pub fn apply_all(&mut self, events: Vec<Event>) -> (requests: Vec<Event>)
        ensures
            *final(self) == after_all(*old(self), events@),
            requests@ == requests_of(events@),
    {
        let mut events = events;
        let mut requests: Vec<Event> = Vec::new();
        let ghost all = events@;
        let ghost start = *self;
        while events.len() > 0
            invariant
                after_all(*self, events@) == after_all(start, all),
                requests@ + requests_of(events@) == requests_of(all),
            decreases events.len(),
        {
            let ghost before = events@;
            let ghost seen = requests@;
            let e = events.remove(0);
            assert(events@ == before.drop_first());
            match self.apply(e) {
                Some(request) => {
                    requests.push(request);
                    assert(requests@ + requests_of(events@) =~= seen + requests_of(before));
                },
                None => {},
            }
        }
        assert(requests@ + requests_of(events@) =~= requests@);
        requests
    }

    /// Pushes `payload` to the subscribed peer. With no peer subscribed nothing is sent and the
    /// payload comes back; with one, the channel decides, and a refused payload comes back too.
    pub fn notify(&mut self, payload: Vec<u8>) -> (r: Result<(), Vec<u8>>)
        ensures
            !old(self).can_deliver() ==> r == Err::<(), Vec<u8>>(payload),
            r matches Err(back) ==> back == payload,
            final(self).can_deliver() == old(self).can_deliver(),
            old(self).can_deliver() && r is Ok ==> pushed(final(self)->Subscribed_0) == pushed(
                old(self)->Subscribed_0,
            ).push(payload@),
            old(self).can_deliver() && r is Err ==> pushed(final(self)->Subscribed_0) == pushed(
                old(self)->Subscribed_0,
            ),
    {
        match self {
            Subscription::Subscribed(handle) => try_push(handle, payload),
            Subscription::Unsubscribed => Err(payload),
        }
    }
}

/// Subscribing and then at once unsubscribing leaves the attribute unsubscribed, from any state,
/// so the handle given on subscription can no longer be reached for a notification.
pub proof fn subscribe_then_unsubscribe(s: Subscription, sub: NotifySubscribe)
    ensures
        after_all(s, seq![Event::NotifySubscribe(sub), Event::NotifyUnsubscribe])
            == Subscription::Unsubscribed,
        !after_all(s, seq![Event::NotifySubscribe(sub), Event::NotifyUnsubscribe]).can_deliver(),
{
    let events = seq![Event::NotifySubscribe(sub), Event::NotifyUnsubscribe];
    assert(events.drop_first() =~= seq![Event::NotifyUnsubscribe]);
    assert(events.drop_first().drop_first() =~= Seq::<Event>::empty());
    let subscribed = next(s, events[0]);
    assert(after_all(s, events) == after_all(subscribed, events.drop_first()));
    assert(after_all(subscribed, events.drop_first()) == after_all(
        Subscription::Unsubscribed,
        events.drop_first().drop_first(),
    ));
}

} // verus!
