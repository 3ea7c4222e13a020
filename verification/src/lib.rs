//! Typed access to RGB contracts through the RGB20 (fungible assets),
//! RGB21 (unique digital assets) and RGB25 (collectible fungible assets)
//! interfaces.
//!
//! Each wrapper holds a contract seen through an interface implementation
//! and reads the interface's global and owned state by field name. What the
//! wrappers compute from that state (interface-class recognition, the
//! feature set of an RGB20 asset, supply totals and balances) is stated and
//! proved in the modules below.

pub mod amount;
pub mod iface_ids;
pub mod outside;
pub mod rgb20;
pub mod rgb21;
pub mod rgb25;
pub mod state;
