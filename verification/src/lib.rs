//! Client-side core of a service-registry ("discovery service") protocol.
//!
//! The crate models the registry's two API surfaces — the minimal "lightning"
//! mode (register / heartbeat / discover / deregister) and the richer "full"
//! mode (service listings, health scores, anomalies, versions) — as pure
//! request plans and response interpretations. A thin unverified shell owns
//! the HTTP transport: it turns a [`request::HttpRequest`] plan into a real
//! request and hands the parsed response body back as a [`json::Json`] value.

pub mod address;
pub mod json;
pub mod model;
pub mod request;
pub mod response;
