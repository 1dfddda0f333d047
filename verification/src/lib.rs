//! A small message-relay library: a bounded, order-preserving log of
//! rendered request text, together with the pure request-handling rules
//! of the two listeners (ingress and dashboard) that share it.

pub mod dashboard;
pub mod ingress;
pub mod store;
