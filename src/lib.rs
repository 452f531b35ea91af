//! Package metadata shared by several package managers, its reconciliation
//! with the Chocolatey specific record, the rules that validate it, and the
//! content of the Chocolatey manifest made from it.

pub mod text;
pub mod url;
pub mod version;
pub mod keyed;
pub mod defaults;
pub mod metadata;
pub mod chocolatey;
pub mod nuspec;
pub mod rules;
pub mod updater;
pub mod download;
