//! Migrations of the registry's records from one version to the next.

pub mod v1;
