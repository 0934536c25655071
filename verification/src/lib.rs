//! Updates of KDE Plasma components from the KDE Store.
//!
//! The library reconciles what is installed on a machine with what the
//! store's catalog offers: it discovers the installed components, resolves
//! each to its catalog entry, plans the requests to the catalog, decides
//! which components have an update, and says how an update is installed and
//! how the registry of installed components is brought up to date.
//!
//! The library computes and decides; it neither reads files nor talks to
//! the network. What it needs from outside it takes as plain values, and
//! what is to be done outside it hands back as plain values.

pub mod api;
pub mod check_laws;
pub mod cli;
pub mod config;
pub mod discovery;
pub mod environment;
pub mod error;
pub mod evaluation;
pub mod install;
pub mod json;
pub mod metadata;
pub mod ocs;
pub mod paths;
pub mod pipeline;
pub mod registry;
pub mod registry_laws;
pub mod registry_write;
pub mod resolution;
pub mod shim;
pub mod store;
pub mod text;
pub mod types;
pub mod version;
pub mod xml;

pub use api::{ApiConfig, StatusCode, USER_AGENT};
pub use config::{Config, IdTable, RestartBehavior, Verbosity};
pub use discovery::{find_installed, scan_installed_components};
pub use error::Error;
pub use evaluation::check_with_components;
pub use pipeline::{any_requires_restart, requires_plasmashell_restart};
pub use resolution::{find_store_entry, resolve_content_id, select_download_url};
pub use types::{
    AvailableUpdate, CheckResult, ComponentDiagnostic, ComponentType, DownloadLink,
    InstalledComponent, JsonOutput, KPluginInfo, PackageMetadata, StoreEntry, UpdateCheckResult,
    UpdateSummary,
};
pub use version::{compare, is_update_available, is_update_available_with_date, normalize};
