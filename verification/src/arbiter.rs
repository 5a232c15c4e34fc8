//! Activation arbiter: single-instance role resolution and the routing of
//! OS-originated activation events.
//!
//! At startup the host's exclusivity primitive answers, exactly once, whether
//! this process is the sole instance holder. A primary process keeps running
//! and handles activations; a secondary process forwards its raw arguments to
//! the primary exactly once and terminates. An activation that carries a
//! recognised URI is routed either to immediate delivery (when a receiver is
//! live) or to the pending-event latch (when none is).

use vstd::prelude::*;

use crate::bridge::{spec_auth_plan, spec_focus_only_plan, plan_delivers_auth, auth_callback_plan,
    focus_only_plan, SideEffect};
use crate::latch::{latch_after_write, DeepLinkStore};

verus! {

/// The role a process holds after startup resolution.
#[derive(Clone, Copy, PartialEq, Eq, Debug)]
pub enum InstanceRole {
    /// The sole long-running instance holder.
    Primary,
    /// Another instance already holds primary status; this process forwards
    /// its activation data and exits.
    Secondary,
}

/// Lifecycle states of the arbiter within one process.
#[derive(Clone, Copy, PartialEq, Eq, Debug)]
pub enum ArbiterState {
    /// Startup, before the exclusivity primitive has answered.
    Unregistered,
    /// This process is the instance holder.
    Primary,
    /// Another process holds primary status.
    Secondary,
    /// A secondary process that has forwarded its arguments and is done.
    Terminated,
}

/// The role the exclusivity primitive's answer dictates.
pub open spec fn spec_role(is_primary: bool) -> InstanceRole {
    if is_primary {
        InstanceRole::Primary
    } else {
        InstanceRole::Secondary
    }
}

/// Resolve this process's role from the exclusivity primitive's answer,
/// obtained once at startup before any window exists.
pub fn resolve_role(is_primary: bool) -> (role: InstanceRole)
    ensures
        role == spec_role(is_primary),
{
    if is_primary {
        InstanceRole::Primary
    } else {
        InstanceRole::Secondary
    }
}

/// The startup transition out of `Unregistered`, as dictated by the resolved
/// role.
pub open spec fn spec_startup_state(role: InstanceRole) -> ArbiterState {
    match role {
        InstanceRole::Primary => ArbiterState::Primary,
        InstanceRole::Secondary => ArbiterState::Secondary,
    }
}

/// Take the startup transition: `Unregistered -> Primary` or
/// `Unregistered -> Secondary`.
pub fn startup_transition(state: ArbiterState, role: InstanceRole) -> (next: ArbiterState)
    requires
        state is Unregistered,
    ensures
        next == spec_startup_state(role),
{
    match role {
        InstanceRole::Primary => ArbiterState::Primary,
        InstanceRole::Secondary => ArbiterState::Secondary,
    }
}

/// The one forwarding a secondary process performs: its raw argument list,
/// handed to the primary through the host's callback channel.
pub struct ForwardRequest {
    pub raw_args: Vec<String>,
}

/// A secondary process's whole remaining life: build the single forward of
/// its raw arguments and move to `Terminated`. The forward carries the
/// arguments unchanged, and the state admits no further forwarding.
pub fn secondary_handoff(state: ArbiterState, raw_args: Vec<String>) -> (r: (
    ForwardRequest,
    ArbiterState,
))
    requires
        state is Secondary,
    ensures
        r.0.raw_args == raw_args,
        r.1 is Terminated,
{
    (ForwardRequest { raw_args }, ArbiterState::Terminated)
}

/// A scheme separator `"://"` at position `i` of `s`, with a nonempty scheme
/// in front of it.
pub open spec fn scheme_separator_at(s: Seq<char>, i: int) -> bool {
    &&& 1 <= i
    &&& i + 3 <= s.len()
    &&& s[i] == ':'
    &&& s[i + 1] == '/'
    &&& s[i + 2] == '/'
}

/// Whether a raw argument looks like a URI of some registered scheme:
/// a nonempty scheme name followed by `"://"`.
pub open spec fn is_uri_shaped(s: Seq<char>) -> bool {
    exists|i: int| scheme_separator_at(s, i)
}

/// Decide whether a raw argument is URI-shaped.
pub fn is_recognized_uri(s: &str) -> (shaped: bool)
    ensures
        shaped == is_uri_shaped(s@),
{
    let n = s.unicode_len();
    if n < 4 {
        proof {
            assert forall|j: int| !scheme_separator_at(s@, j) by {}
        }
        return false;
    }
    let mut i: usize = 1;
    while i < n - 2
        invariant
            1 <= i <= n - 2,
            4 <= n == s@.len(),
            forall|j: int| j < i ==> !scheme_separator_at(s@, j),
        decreases n - i,
    {
        if s.get_char(i) == ':' && s.get_char(i + 1) == '/' && s.get_char(i + 2) == '/' {
            proof {
                assert(scheme_separator_at(s@, i as int));
            }
            return true;
        }
        i += 1;
    }
    proof {
        assert forall|j: int| !scheme_separator_at(s@, j) by {
            if j >= i {
                assert(j + 3 > s@.len());
            }
        }
    }
    false
}

/// The first URI-shaped entry of an argument list, if any.
pub open spec fn first_uri(args: Seq<Seq<char>>) -> Option<Seq<char>>
    decreases args.len(),
{
    if args.len() == 0 {
        None
    } else if is_uri_shaped(args[0]) {
        Some(args[0])
    } else {
        first_uri(args.drop_first())
    }
}

/// Scan a forwarded argument list for the first URI-shaped entry, the one a
/// recognised-scheme activation would carry.
pub fn extract_activation_url(raw_args: &Vec<String>) -> (found: Option<String>)
    ensures
        found.deep_view() == first_uri(raw_args.deep_view()),
{
    let ghost dv = raw_args.deep_view();
    let mut k: usize = 0;
    proof {
        assert(dv.skip(0) =~= dv);
    }
    while k < raw_args.len()
        invariant
            k <= raw_args.len(),
            dv == raw_args.deep_view(),
            dv.len() == raw_args@.len(),
            forall|j: int| 0 <= j < dv.len() ==> dv[j] == #[trigger] raw_args@[j]@,
            first_uri(dv) == first_uri(dv.skip(k as int)),
        decreases raw_args.len() - k,
    {
        if is_recognized_uri(raw_args[k].as_str()) {
            let found = raw_args[k].clone();
            proof {
                assert(dv.skip(k as int)[0] == dv[k as int]);
                assert(first_uri(dv.skip(k as int)) == Some(dv[k as int]));
            }
            return Some(found);
        }
        proof {
            assert(dv.skip(k as int)[0] == dv[k as int]);
            assert(dv.skip(k as int).drop_first() =~= dv.skip(k as int + 1));
        }
        k += 1;
    }
    proof {
        assert(dv.skip(k as int) =~= Seq::<Seq<char>>::empty());
    }
    None
}

/// An OS-originated activation, as handed to the arbiter.
pub enum ActivationEvent {
    /// A rejected secondary launch, forwarded with its raw argument list.
    SecondaryLaunch { raw_args: Vec<String> },
    /// A registered custom-scheme URI, dispatched directly by the OS.
    UriActivation { url: String },
}

/// The activation URL an event carries: the dispatched URI itself, or the
/// first URI-shaped argument of a forwarded secondary launch.
pub open spec fn spec_activation_url(event: ActivationEvent) -> Option<Seq<char>> {
    match event {
        ActivationEvent::SecondaryLaunch { raw_args } => first_uri(raw_args.deep_view()),
        ActivationEvent::UriActivation { url } => Some(url@),
    }
}

/// Route one activation URL: deliver immediately when a receiver is live,
/// otherwise buffer it in the latch (the only valid sink then).
pub fn route_activation(store: &mut DeepLinkStore, url: String, receiver_live: bool) -> (plan:
    Option<Vec<SideEffect>>)
    ensures
        receiver_live ==> final(store)@ == old(store)@ && (plan matches Some(p) && p@
            == spec_auth_plan(url)),
        !receiver_live ==> final(store)@ == latch_after_write(old(store)@, url@) && plan is None,
{
    if receiver_live {
        Some(auth_callback_plan(url))
    } else {
        store.write(url);
        None
    }
}

/// Handle one OS activation end to end: pick out the activation URL, then
/// either hand back the delivery plan (receiver live; latch untouched) or
/// buffer the URL (no receiver; no plan). A secondary launch that carries no
/// URI only brings the live window to the fore, and never touches the latch.
/// Redelivery of the same activation repeats the same step, so it corrupts
/// nothing beyond the documented last-write-wins replacement.
pub fn handle_activation(store: &mut DeepLinkStore, event: ActivationEvent, receiver_live: bool)
    -> (plan: Option<Vec<SideEffect>>)
    ensures
        ({
            let carried = spec_activation_url(event);
            &&& carried matches Some(u) ==> ({
                &&& receiver_live ==> final(store)@ == old(store)@ && (plan matches Some(p)
                    && plan_delivers_auth(p@, u))
                &&& !receiver_live ==> final(store)@ == Some(u) && plan is None
            })
            &&& carried is None ==> ({
                &&& receiver_live ==> final(store)@ == old(store)@ && (plan matches Some(p) && p@
                    == spec_focus_only_plan())
                &&& !receiver_live ==> final(store)@ == old(store)@ && plan is None
            })
        }),
{
    match event {
        ActivationEvent::UriActivation { url } => route_activation(store, url, receiver_live),
        ActivationEvent::SecondaryLaunch { raw_args } => {
            match extract_activation_url(&raw_args) {
                Some(url) => route_activation(store, url, receiver_live),
                None => {
                    if receiver_live {
                        Some(focus_only_plan())
                    } else {
                        None
                    }
                },
            }
        },
    }
}

/// Arbiter exclusivity: however near-simultaneously two processes start, the
/// exclusivity primitive answers `true` to exactly one of them, and then
/// exactly one resolves to `Primary` while the other resolves to `Secondary`
/// (and from there forwards once and terminates, see `secondary_handoff`).
pub proof fn lemma_arbiter_exclusivity(first_answer: bool, second_answer: bool)
    requires
        first_answer != second_answer,
    ensures
        (spec_role(first_answer) is Primary) != (spec_role(second_answer) is Primary),
        (spec_role(first_answer) is Secondary) != (spec_role(second_answer) is Secondary),
{
}

} // verus!
