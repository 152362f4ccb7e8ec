//! What every provider offers.

pub mod provider_api;
