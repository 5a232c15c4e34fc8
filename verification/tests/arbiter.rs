use app_activation::arbiter::{
    extract_activation_url, handle_activation, is_recognized_uri, resolve_role, secondary_handoff,
    startup_transition, ActivationEvent, ArbiterState, InstanceRole,
};
use app_activation::bridge::{BridgeEvent, SideEffect};
use app_activation::latch::DeepLinkStore;

fn args(list: &[&str]) -> Vec<String> {
    list.iter().map(|a| a.to_string()).collect()
}

#[test]
fn exactly_one_process_resolves_to_primary() {
    let winner = resolve_role(true);
    let loser = resolve_role(false);
    assert_eq!(winner, InstanceRole::Primary);
    assert_eq!(loser, InstanceRole::Secondary);
}

#[test]
fn startup_transition_follows_the_role() {
    assert_eq!(
        startup_transition(ArbiterState::Unregistered, InstanceRole::Primary),
        ArbiterState::Primary
    );
    assert_eq!(
        startup_transition(ArbiterState::Unregistered, InstanceRole::Secondary),
        ArbiterState::Secondary
    );
}

#[test]
fn secondary_forwards_its_arguments_once_and_terminates() {
    let (forward, state) = secondary_handoff(ArbiterState::Secondary, args(&["app", "app://x"]));
    assert_eq!(forward.raw_args, args(&["app", "app://x"]));
    assert_eq!(state, ArbiterState::Terminated);
}

#[test]
fn uri_recognition() {
    assert!(is_recognized_uri("app://auth?token=abc"));
    assert!(is_recognized_uri("x://"));
    assert!(!is_recognized_uri("app"));
    assert!(!is_recognized_uri(""));
    assert!(!is_recognized_uri("app:/auth"));
    // A separator with an empty scheme in front of it is not a URI.
    assert!(!is_recognized_uri("://auth"));
}

#[test]
fn extraction_finds_the_first_uri_shaped_argument() {
    assert_eq!(
        extract_activation_url(&args(&["app", "app://auth?token=xyz"])),
        Some("app://auth?token=xyz".to_string())
    );
    assert_eq!(
        extract_activation_url(&args(&["app", "a://1", "b://2"])),
        Some("a://1".to_string())
    );
    assert_eq!(extract_activation_url(&args(&["app", "--flag"])), None);
    assert_eq!(extract_activation_url(&args(&[])), None);
}

#[test]
fn scenario_uri_activation_before_any_window() {
    let mut store = DeepLinkStore::new();
    let event = ActivationEvent::UriActivation { url: "app://auth?token=abc".to_string() };
    let plan = handle_activation(&mut store, event, false);
    assert!(plan.is_none());
    assert_eq!(store.take(), Some("app://auth?token=abc".to_string()));
    assert_eq!(store.take(), None);
}

#[test]
fn scenario_uri_activation_with_live_window() {
    let mut store = DeepLinkStore::new();
    let event = ActivationEvent::UriActivation { url: "app://auth?token=abc".to_string() };
    let plan = handle_activation(&mut store, event, true).expect("a delivery plan");
    assert_eq!(plan.len(), 2);
    assert!(matches!(plan[0], SideEffect::Focus));
    match &plan[1] {
        SideEffect::Deliver(BridgeEvent::AuthCallback(payload)) => {
            assert_eq!(payload.url, "app://auth?token=abc");
        }
        _ => panic!("expected an auth-callback delivery"),
    }
    assert_eq!(store.take(), None);
}

#[test]
fn scenario_secondary_launch_buffers_its_uri() {
    let mut store = DeepLinkStore::new();
    let event = ActivationEvent::SecondaryLaunch {
        raw_args: args(&["app", "app://auth?token=xyz"]),
    };
    let plan = handle_activation(&mut store, event, false);
    assert!(plan.is_none());
    assert_eq!(store.take(), Some("app://auth?token=xyz".to_string()));
}

#[test]
fn secondary_launch_without_uri_only_focuses_a_live_window() {
    let mut store = DeepLinkStore::new();
    let event = ActivationEvent::SecondaryLaunch { raw_args: args(&["app"]) };
    let plan = handle_activation(&mut store, event, true).expect("a focus plan");
    assert_eq!(plan.len(), 1);
    assert!(matches!(plan[0], SideEffect::Focus));
    assert_eq!(store.take(), None);
}

#[test]
fn secondary_launch_without_uri_and_without_window_does_nothing() {
    let mut store = DeepLinkStore::new();
    let event = ActivationEvent::SecondaryLaunch { raw_args: args(&["app"]) };
    let plan = handle_activation(&mut store, event, false);
    assert!(plan.is_none());
    assert_eq!(store.take(), None);
}

#[test]
fn redelivery_of_the_same_activation_is_harmless() {
    let mut store = DeepLinkStore::new();
    let first = ActivationEvent::UriActivation { url: "app://again".to_string() };
    let second = ActivationEvent::UriActivation { url: "app://again".to_string() };
    assert!(handle_activation(&mut store, first, false).is_none());
    assert!(handle_activation(&mut store, second, false).is_none());
    assert_eq!(store.take(), Some("app://again".to_string()));
    assert_eq!(store.take(), None);
}
