//! Lifecycle of a GPU super-sampling SDK session bound to one device:
//! building the self-describing feature descriptor an application
//! hands the SDK, performing the device-scoped init handshake and the
//! capability check, exposing the VRAM statistic of a ready session,
//! and releasing every acquired resource in order.
//!
//! The native SDK and the graphics backend stay outside this crate: a
//! host layer owns the real device, performs each native call in the
//! order the session machine here dictates, and feeds the outcome of
//! every call back in as a plain value.

pub mod encode;
pub mod feature_info;
pub mod paths;
pub mod project_id;
pub mod sdk;
