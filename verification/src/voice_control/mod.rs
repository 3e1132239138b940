//! Authority over new human input while a voice session may own it.

pub mod admission;
pub mod admission_laws;
pub mod admission_outcome_laws;
pub mod lease;
pub mod lease_laws;
pub mod lease_outcome_laws;
pub mod provenance;
