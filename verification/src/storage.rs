//! Registries of providers.

pub mod json_storage;
pub mod storage_api;
