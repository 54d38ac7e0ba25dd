//! Provisioning of game-server instances: port allocation, deployment
//! descriptors, and the asset ingestion protocol.

pub mod descriptor;
pub mod document;
pub mod error;
pub mod fetcher;
pub mod fetcher_laws;
pub mod ports;
pub mod request;
pub mod store;
pub mod text;
pub mod versions;
pub mod workflow;
pub mod workflow_laws;
pub mod yaml;
