//! The event side of the bridge. The subscription stream hands in one
//! [`PresenceEvent`] at a time; [`action_for_event`] decides whether it
//! triggers a render and with which animation, and [`render_plan`] gives
//! the renders that a whole run of events produces, in order.

use vstd::prelude::*;
use crate::status::{Animation, map_status, spec_map_status};

verus! {

/// What one subscription notification carries, reduced to what the bridge
/// reads from it.
#[derive(Debug)]
pub enum EventPayload {
    /// The subscription-update kind; its status may be absent.
    SubscriptionUpdate { status: Option<String> },
    /// Every other notification kind; the bridge ignores these.
    Other,
}

/// One event from the presence stream. Events may carry no payload at all.
#[derive(Debug)]
pub struct PresenceEvent {
    pub data: Option<EventPayload>,
}

/// The render action an event triggers: the mapped animation when the
/// event is a subscription update carrying a status, nothing otherwise.
pub open spec fn spec_action_for_event(e: PresenceEvent) -> Option<Animation> {
    match e.data {
        Some(EventPayload::SubscriptionUpdate { status }) => match status {
            Some(s) => Some(spec_map_status(s@)),
            None => None,
        },
        Some(EventPayload::Other) => None,
        None => None,
    }
}

/// Decide what one event means for the display: `None` asks for no render
/// and the loop keeps awaiting; `Some(a)` asks for one render of `a`.
pub fn action_for_event(event: &PresenceEvent) -> (r: Option<Animation>)
    ensures
        r == spec_action_for_event(*event),
{
    match &event.data {
        Some(EventPayload::SubscriptionUpdate { status }) => match status {
            Some(s) => Some(map_status(s.as_str())),
            None => None,
        },
        Some(EventPayload::Other) => None,
        None => None,
    }
}

/// The renders a run of events produces, in order: one per event that
/// carries a status, none for the rest.
pub open spec fn spec_render_plan(events: Seq<PresenceEvent>) -> Seq<Animation>
    decreases events.len(),
{
    if events.len() == 0 {
        Seq::empty()
    } else {
        let prefix = spec_render_plan(events.drop_last());
        match spec_action_for_event(events.last()) {
            Some(a) => prefix.push(a),
            None => prefix,
        }
    }
}

/// Events without a payload, and events of any other kind than the
/// subscription update, trigger no render.
pub proof fn lemma_other_events_ignored(e: PresenceEvent)
    requires
        e.data is None || e.data == Some(EventPayload::Other),
    ensures
        spec_action_for_event(e) is None,
{
}

/// An ignored event leaves the render plan unchanged: the loop goes on
/// awaiting the next event instead of ending or rendering.
pub proof fn lemma_ignored_event_keeps_plan(events: Seq<PresenceEvent>, e: PresenceEvent)
    requires
        spec_action_for_event(e) is None,
    ensures
        spec_render_plan(events.push(e)) == spec_render_plan(events),
{
    assert(events.push(e).drop_last() =~= events);
    assert(events.push(e).last() == e);
}

/// Compute the renders for a batch of events, in stream order.
pub fn render_plan(events: &Vec<PresenceEvent>) -> (r: Vec<Animation>)
    ensures
        r@ == spec_render_plan(events@),
{
    let mut plan: Vec<Animation> = Vec::new();
    let n: usize = events.len();
    let mut k: usize = 0;
    while k < n
        invariant
            n == events@.len(),
            k <= n,
            plan@ == spec_render_plan(events@.take(k as int)),
        decreases n - k,
    {
        proof {
            assert(events@.take(k as int + 1).drop_last() =~= events@.take(k as int));
            assert(events@.take(k as int + 1).last() == events@[k as int]);
        }
        match action_for_event(&events[k]) {
            Some(a) => plan.push(a),
            None => {},
        }
        k += 1;
    }
    proof {
        assert(events@.take(n as int) =~= events@);
    }
    plan
}

} // verus!
