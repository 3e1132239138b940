//! Admission of voice input: who may submit, which turn an utterance belongs to, and the durable
//! receipts that keep an utterance from being submitted twice.

pub mod cancellation;
pub mod host;
pub mod ids;
pub mod json;
pub mod model_laws;
pub mod origin;
pub mod queue_failure;
pub mod receipt;
pub mod requested_cancellation;
pub mod routing;
pub mod routing_laws;
pub mod routing_outcome_laws;
pub mod session;
pub mod session_laws;
pub mod session_outcome_laws;
pub mod store;
pub mod store_laws;
pub mod store_model;
pub mod store_outcome_laws;
pub mod text;
pub mod text_map;
pub mod voice_control;
