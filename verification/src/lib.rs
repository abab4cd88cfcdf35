//! Connects a Trino cluster to a Superset cluster.
//!
//! A `TrinoConnection` resource names a Superset and a Trino cluster. Once both are available, a
//! Kubernetes job imports the Trino datasource into Superset. This crate holds the resource and its
//! status, the import job, and the decisions of the controller that drives a connection from
//! `Pending` over `Importing` to `Ready` or `Failed`.

pub mod behaviour;
pub mod discovery;
pub mod import_job;
pub mod lifecycle;
pub mod object;
pub mod reconcile;
pub mod string_map;
pub mod superset;
pub mod trino_connection_controller;
pub mod trinoconnection;
pub mod yaml;
