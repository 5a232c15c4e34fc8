use app_activation::bridge::{BridgeEvent, SideEffect};
use app_activation::signaler::{attention_outcome, flash_taskbar, AttentionError};

#[test]
fn attention_succeeds_when_the_handle_resolves() {
    assert_eq!(attention_outcome(true), Ok(()));
}

#[test]
fn attention_failure_is_reported_not_escalated() {
    assert_eq!(attention_outcome(false), Err(AttentionError::HandleResolution));
}

#[test]
fn flash_with_live_window_signals_and_delivers() {
    let plan = flash_taskbar(true, "meeting".to_string()).expect("an attention plan");
    assert_eq!(plan.len(), 2);
    assert!(matches!(plan[0], SideEffect::Attention));
    match &plan[1] {
        SideEffect::Deliver(BridgeEvent::StartingSoon(payload)) => {
            assert_eq!(payload.title, "meeting");
        }
        _ => panic!("expected a reminder delivery"),
    }
    assert!(plan.iter().all(|step| !matches!(step, SideEffect::Focus)));
}

#[test]
fn flash_without_window_does_nothing() {
    assert!(flash_taskbar(false, "meeting".to_string()).is_none());
}
