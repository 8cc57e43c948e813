//! Persistence core of a sensor telemetry service: timestamp
//! normalisation, the "latest reading" ordering rule, an in-memory store, the
//! three-tier error classification and the service that composes them.

pub mod error;
pub mod model;
pub mod repository;
pub mod service;
pub mod timestamp;
