//! Platform-integration bridges for an embedded web-rendering surface.
//!
//! Two independent adapters are modelled and verified here:
//! - a download bridge, which turns the native engine's download lifecycle
//!   signals into application-level callback decisions, and
//! - a synthetic mouse-event bridge, which maps the extra back/forward mouse
//!   buttons to a browser-standard pointer event delivered as a script.
//!
//! The unverifiable platform glue (Objective-C message sends, dynamic method
//! registration, script evaluation) lives outside this crate; the logic that
//! decides and constructs values is here, with contracts.

pub mod download;
pub mod mouse;
pub mod text;
