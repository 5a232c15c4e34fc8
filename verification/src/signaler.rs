//! Window-attention signaler: the best-effort, non-focus-stealing visual cue
//! on the primary window, and the frontend-facing attention command.
//!
//! Resolving and flashing the native handle is the host platform's work; on
//! platforms without a flash primitive the attempt is a no-op that still
//! succeeds. What is decided here: how a resolution attempt turns into an
//! outcome (failure is reported, never fatal), and what an attention command
//! does depending on whether the main window is live.

use vstd::prelude::*;

use crate::bridge::{spec_attention_plan, attention_plan, SideEffect};

verus! {

/// Failure of a single best-effort attention attempt.
#[derive(Clone, Copy, PartialEq, Eq, Debug)]
pub enum AttentionError {
    /// The native window handle could not be obtained or cast.
    HandleResolution,
}

/// Outcome of one attention attempt, from whether the native handle resolved
/// to a usable value. Success if and only if it did; failure is the reported
/// `HandleResolution` error and nothing more — callers treat it as "attention
/// not shown" and continue.
pub fn attention_outcome(handle_resolved: bool) -> (outcome: Result<(), AttentionError>)
    ensures
        outcome is Ok <==> handle_resolved,
        !handle_resolved ==> outcome == Err::<(), AttentionError>(
            AttentionError::HandleResolution,
        ),
{
    if handle_resolved {
        Ok(())
    } else {
        Err(AttentionError::HandleResolution)
    }
}

/// The frontend's "signal attention with a title" command: when the main
/// window is live, flag it without stealing focus and deliver the reminder
/// event; when it is not, do nothing (best-effort, never an error to the
/// caller).
pub fn flash_taskbar(window_live: bool, title: String) -> (plan: Option<Vec<SideEffect>>)
    ensures
        window_live ==> (plan matches Some(p) && p@ == spec_attention_plan(title)),
        !window_live ==> plan is None,
{
    if window_live {
        Some(attention_plan(title))
    } else {
        None
    }
}

} // verus!
