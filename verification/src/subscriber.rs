use vstd::prelude::*;

verus! {

/// Holder of the single outbound channel. Installing a channel replaces
/// any previous one — no queuing, no multicast. The host serializes
/// concurrent calls with a lock held for one read-modify-write, so the
/// last writer wins.
pub struct SubscriberRegistry<S> {
    /// The sole active subscriber, if one is installed.
    pub active: Option<S>,
}

impl<S> SubscriberRegistry<S> {
    pub fn new() -> (r: SubscriberRegistry<S>)
        ensures
            r.active is None,
    {
        SubscriberRegistry { active: None }
    }

    /// The registry after `subscribe`: the new channel is the sole
    /// subscriber, the previous one is dropped.
    pub open spec fn spec_subscribe(self, sink: S) -> SubscriberRegistry<S> {
        SubscriberRegistry { active: Some(sink) }
    }

    /// Installs `sink` as the sole active subscriber, dropping any
    /// previous one.
    pub fn subscribe(&mut self, sink: S)
        ensures
            *final(self) == old(self).spec_subscribe(sink),
    {
        self.active = Some(sink);
    }

    /// Removes the active subscriber, if any; idempotent.
    pub fn clear(&mut self)
        ensures
            final(self).active is None,
    {
        self.active = None;
    }
}

/// Law: after `subscribe(a)` then `subscribe(b)`, the sole subscriber is
/// `b` — an event routed afterwards can only be handed to `b`, never to
/// `a`.
pub proof fn lemma_last_subscriber_wins<S>(reg0: SubscriberRegistry<S>, a: S, b: S)
    ensures
        reg0.spec_subscribe(a).spec_subscribe(b).active == Some(b),
        a != b ==> reg0.spec_subscribe(a).spec_subscribe(b).active != Some(a),
{
}

} // verus!
