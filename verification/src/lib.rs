//! Migration of dashboards, folders and datasources between two Grafana
//! instances: the rules that make an exported document replayable, the
//! create-or-update decision taken on import, and the ordering of the phases.

pub mod config;
pub mod document;
pub mod import;
pub mod json;
pub mod kind;
pub mod listing;
pub mod model;
pub mod orchestrator;
pub mod route;
pub mod snapshot;
pub mod transform;
pub mod upsert;
