//! Verified core of an operator that manages PostgreSQL databases and users
//! on an external server, driven both by a management HTTP API and by
//! `Database` custom resources in a Kubernetes cluster.

pub mod models;
pub mod named_map;
pub mod text;
pub mod database;
pub mod operator;
pub mod path;
pub mod client;
pub mod http;
pub mod provisioning;
