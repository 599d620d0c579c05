//! Database provisioning for deployed projects.
//!
//! A project asks for a database and gets back connection credentials that
//! work right away. Two strategies are supported: a role/database pair on a
//! shared multi-tenant Postgres cluster, and a dedicated managed instance
//! driven through a cloud instance-lifecycle API.
//!
//! The reconciliation logic is verified: identifier validation (the injection
//! defence), the idempotent create-or-reuse decisions for shared resources,
//! and the lifecycle state machine for managed instances. The SQL executor
//! and the cloud client are external collaborators: the state machines here
//! emit plain actions for them and consume their replies as plain values.

pub mod engine;
pub mod error;
pub mod ident;
pub mod managed;
pub mod password;
pub mod response;
pub mod service;
pub mod shared;
