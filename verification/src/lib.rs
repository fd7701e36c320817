//! Harvesting of an anti-bot clearance token from a browser session.
//!
//! The library has two parts: a pure request-interception policy that
//! classifies network requests by resource type and decides whether each
//! one may proceed, and a session driver that runs one end-to-end
//! harvesting pass against a browser supplied through the
//! [`session::BrowserProvider`] capability trait.  A scripted in-memory
//! provider lives in [`scripted`] so the driver can be exercised without
//! a real browser; an implementation backed by a real browser belongs to
//! the embedding application.

pub mod policy;
pub mod scripted;
pub mod session;

pub use crate::session::Params;
pub use crate::session::get_params;
pub use crate::session::get_params_with_interceptor;
pub use crate::session::run_session;
