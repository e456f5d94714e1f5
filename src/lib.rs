//! Reference-data cache of Vietnamese market instruments: normalisation of
//! provider listings, an idempotent asset store and the sync orchestration.

pub mod text;
pub mod asset;
pub mod stock;
pub mod cache;
pub mod repository;
pub mod sync;
pub mod laws;
