//! Allocation, weighting and share arithmetic of a yield-aggregating vault.
pub mod asset_container;
pub mod errors;
pub mod provider;
pub mod ranking;
pub mod rate;
pub mod state;
pub mod precise;
pub mod math;
pub mod last_update;
pub mod assets;
pub mod strategies;
pub mod instructions;
pub mod backend_container;
pub mod backend_fields;
pub mod events;
pub mod markets;
pub mod exchange;
pub mod adapters;
