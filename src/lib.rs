//! A verified asset registry: named assets keyed by a digest of their record,
//! with ownership transfer and per-account metadata slots.

pub mod types;
pub mod hashing;
pub mod store;
pub mod pallet;
pub mod laws;

pub use types::{AccountId, AssetId, AssetItem, AssetRecord, Error, Event};
pub use hashing::asset_id_of;
pub use store::{AssetsStore, MetadataStore};
pub use pallet::{EventRecord, Pallet, RegistryState};
