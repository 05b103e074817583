//! An intercepting reverse proxy's decision core: every inbound request body
//! is parsed as JSON, rendered in canonical form and searched for a marker of
//! malicious content; the request is then either rejected or rebuilt for the
//! protected backend. Transport, logging sinks and process start-up are left
//! to the caller, who hands plain values in and acts on the values handed
//! back.

pub mod body;
pub mod dispatch;
pub mod json;
pub mod message;
pub mod pattern;
pub mod proxy;
pub mod tracker;
