//! Cross-forge cascades and service discovery.

pub mod client;
pub mod conformance;
pub mod forge;
pub mod forge_factory;
pub mod gateway;
pub mod geetch;
pub mod geetch_conformance;
pub mod geetch_provisioner;
pub mod github;
pub mod groups;
pub mod guarded;
pub mod guarded_conformance;
pub mod guarded_geetch;
pub mod guarded_model;
pub mod history;
pub mod json;
pub mod laws;
pub mod messages;
pub mod provision;
pub mod registry;
pub mod resolver;
pub mod runtime;
pub mod runtime_conformance;
pub mod search;
pub mod service;
pub mod sorted;
pub mod sorting;
pub mod status;
pub mod table;
pub mod testing;
pub mod text;
pub mod wire;
