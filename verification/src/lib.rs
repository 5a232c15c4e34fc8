//! Coordination core for a single-instance GUI application that receives
//! OS-originated activation events (deep-link URI dispatches and secondary
//! process launches).
//!
//! The crate is organised around four pieces:
//! - [`latch`]: a single-slot, take-once buffer for a pending activation URL,
//!   bridging the gap between event arrival and frontend readiness;
//! - [`arbiter`]: instance-role resolution and the routing of activation
//!   events either to immediate delivery or to the latch;
//! - [`bridge`]: the ordered side-effect plans (focus, attention, event
//!   delivery) that accompany a delivery to the live frontend surface;
//! - [`signaler`]: the best-effort window-attention outcome and the
//!   frontend-facing attention command.
//!
//! The host runtime performs the windowing, the event dispatch and the native
//! attention flash; this crate decides, for every activation and command,
//! what is delivered, what is buffered, and in what order the side effects
//! run.

pub mod arbiter;
pub mod bridge;
pub mod latch;
pub mod signaler;

pub use latch::DeepLinkStore;
