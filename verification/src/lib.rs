//! Core of a resource-oriented data service: pagination normalization,
//! optional equality filters, repository semantics, service-level error
//! translation, paginated response envelopes, and a bulk ingestion
//! pipeline with per-record failure isolation.

pub mod error;
pub mod ingest;
pub mod laws;
pub mod models;
pub mod pagination;
pub mod repository;
pub mod response;
pub mod services;
