//! Resilient client logic for the PKI of a secrets backend.
//!
//! The crate decides; its driver performs. The gateway in [`crypto`] says
//! which requests fetch certificates and what their answers hold, the
//! machine in [`retry`] says when a request is sent again, [`health`] reads
//! the backend's health from one probe, and [`http_proxy`] builds the HTTP
//! client that all of this is sent with.

pub mod crypto;
pub mod errors;
pub mod health;
pub mod http_proxy;
pub mod json;
pub mod retry;
pub mod status;
pub mod text;

pub use crypto::{build_cert_getter, pki_url_builder, GetCertsFromPki};
pub use errors::SamplyBeamError;
pub use http_proxy::build_hyper_client;
