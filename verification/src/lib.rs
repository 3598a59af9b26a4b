//! A real-time notification relay: a registry of users, a bounded conduit per
//! open stream, an encrypted push fallback, and the dispatcher that drives them.

pub mod conduit;
pub mod dispatch;
pub mod push;
pub mod registration;
pub mod registry;
pub mod response;
