//! Event bridge: the payloads delivered to the live frontend surface and the
//! ordered side-effect plans that accompany a delivery.
//!
//! The bridge itself does not buffer: a plan is built only when a receiver is
//! live, and the caller falls back to the pending-event latch otherwise. A
//! plan is an ordered sequence of side effects that the host runtime performs
//! one by one. Policy: an auth-callback delivery (the user initiated the
//! round-trip) requests focus before the payload lands; an attention-style
//! reminder never forces focus and uses the non-stealing attention signal
//! instead.

use vstd::prelude::*;

verus! {

/// Body of an attention-style reminder event.
pub struct EventPayload {
    pub title: String,
}

/// Body of a completed external-authentication callback event.
pub struct AuthCallbackPayload {
    pub url: String,
}

/// A named event together with its payload, as delivered across the runtime
/// boundary.
pub enum BridgeEvent {
    /// Delivered under the stable name `"event-starting-soon"`.
    StartingSoon(EventPayload),
    /// Delivered under the stable name `"auth-callback"`.
    AuthCallback(AuthCallbackPayload),
}

/// One step of a delivery plan, performed by the host runtime in order.
pub enum SideEffect {
    /// Request keyboard focus on the receiver.
    Focus,
    /// Request a non-focus-stealing attention signal (e.g. taskbar flash).
    Attention,
    /// Deliver the named event with its payload to the receiver.
    Deliver(BridgeEvent),
}

/// Errors of a delivery attempt; logged at the boundary, never escalated.
#[derive(Clone, Copy, PartialEq, Eq, Debug)]
pub enum BridgeError {
    /// The host runtime's own dispatch failed (e.g. payload serialisation).
    Delivery,
}

/// The stable identifier under which an event is delivered.
pub fn event_name(event: &BridgeEvent) -> (name: &'static str)
    ensures
        event is StartingSoon ==> name@ == "event-starting-soon"@,
        event is AuthCallback ==> name@ == "auth-callback"@,
{
    match event {
        BridgeEvent::StartingSoon(_) => "event-starting-soon",
        BridgeEvent::AuthCallback(_) => "auth-callback",
    }
}

/// Plan for a completed authentication round-trip: focus first, then deliver
/// the callback URL.
pub open spec fn spec_auth_plan(url: String) -> Seq<SideEffect> {
    seq![
        SideEffect::Focus,
        SideEffect::Deliver(BridgeEvent::AuthCallback(AuthCallbackPayload { url })),
    ]
}

/// Plan for an attention-style reminder: signal attention, then deliver the
/// reminder; never a focus request.
pub open spec fn spec_attention_plan(title: String) -> Seq<SideEffect> {
    seq![
        SideEffect::Attention,
        SideEffect::Deliver(BridgeEvent::StartingSoon(EventPayload { title })),
    ]
}

/// Plan for a secondary launch that carried no activation URL: just bring the
/// existing window to the user's attention via focus.
pub open spec fn spec_focus_only_plan() -> Seq<SideEffect> {
    seq![SideEffect::Focus]
}

/// The plan delivers the auth callback for `url` as its one delivery, with a
/// focus request in front of it.
pub open spec fn plan_delivers_auth(plan: Seq<SideEffect>, url: Seq<char>) -> bool {
    &&& plan.len() == 2
    &&& plan[0] is Focus
    &&& plan[1] matches SideEffect::Deliver(BridgeEvent::AuthCallback(payload)) && payload.url@
        == url
}

/// Every delivery in the plan is preceded by a focus request.
pub open spec fn focus_before_delivery(plan: Seq<SideEffect>) -> bool {
    forall|i: int|
        0 <= i < plan.len() && plan[i] is Deliver ==> exists|j: int|
            0 <= j < i && plan[j] is Focus
}

/// The plan never requests focus.
pub open spec fn never_focuses(plan: Seq<SideEffect>) -> bool {
    forall|i: int| 0 <= i < plan.len() ==> !(plan[i] is Focus)
}

/// Build the delivery plan for an auth callback.
pub fn auth_callback_plan(url: String) -> (plan: Vec<SideEffect>)
    ensures
        plan@ == spec_auth_plan(url),
{
    let mut plan: Vec<SideEffect> = Vec::new();
    plan.push(SideEffect::Focus);
    plan.push(SideEffect::Deliver(BridgeEvent::AuthCallback(AuthCallbackPayload { url })));
    proof {
        assert(plan@ =~= spec_auth_plan(url));
    }
    plan
}

/// Build the delivery plan for an attention-style reminder.
pub fn attention_plan(title: String) -> (plan: Vec<SideEffect>)
    ensures
        plan@ == spec_attention_plan(title),
{
    let mut plan: Vec<SideEffect> = Vec::new();
    plan.push(SideEffect::Attention);
    plan.push(SideEffect::Deliver(BridgeEvent::StartingSoon(EventPayload { title })));
    proof {
        assert(plan@ =~= spec_attention_plan(title));
    }
    plan
}

/// Build the focus-only plan for a secondary launch without a payload.
pub fn focus_only_plan() -> (plan: Vec<SideEffect>)
    ensures
        plan@ == spec_focus_only_plan(),
{
    let mut plan: Vec<SideEffect> = Vec::new();
    plan.push(SideEffect::Focus);
    proof {
        assert(plan@ =~= spec_focus_only_plan());
    }
    plan
}

/// Side-effect ordering, auth half: an auth-callback plan always places a
/// focus request before the payload delivery, and delivers the callback URL
/// exactly once.
pub proof fn lemma_auth_plan_orders_focus_first(url: String)
    ensures
        focus_before_delivery(spec_auth_plan(url)),
        spec_auth_plan(url)[1] == SideEffect::Deliver(
            BridgeEvent::AuthCallback(AuthCallbackPayload { url }),
        ),
{
    let plan = spec_auth_plan(url);
    assert forall|i: int| 0 <= i < plan.len() && plan[i] is Deliver implies exists|j: int|
        0 <= j < i && plan[j] is Focus by {
        assert(!(plan[0] is Deliver));
        assert(i == 1);
        assert(0 <= 0 < i && plan[0] is Focus);
    }
}

/// Side-effect ordering, attention half: an attention-style plan never forces
/// focus.
pub proof fn lemma_attention_plan_never_focuses(title: String)
    ensures
        never_focuses(spec_attention_plan(title)),
{
    let plan = spec_attention_plan(title);
    assert forall|i: int| 0 <= i < plan.len() implies !(plan[i] is Focus) by {
        assert(!(plan[0] is Focus));
        assert(!(plan[1] is Focus));
    }
}

} // verus!
