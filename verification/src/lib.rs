//! Verified core of a household and inventory backend: the domain rules,
//! the in-memory household store, the use-case decision steps and the
//! conversions between stored rows and domain values.

pub mod accounts;
pub mod devices;
pub mod households;
pub mod inventory;
pub mod shared;
