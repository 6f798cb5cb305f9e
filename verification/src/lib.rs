//! Governed analytics: a catalog of data sources, datasets, metrics and
//! segments; dashboards built from widgets; and a policy that decides which
//! analytics actions are allowed, with every governed action recorded in an
//! audit log.

pub mod text;
pub mod domain;
pub mod policy;
pub mod stamps;
pub mod api;
pub mod catalog;
pub mod analysis;
pub mod inputs;
pub mod dashboards;
pub mod governance;
pub mod queries;
pub mod timeline;
pub mod laws;
