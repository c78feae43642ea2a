//! What the operations promise, stated over what goes into them and what comes out: each law
//! speaks of the results of calls, whatever way the library describes them elsewhere.

pub mod conformance;
pub mod discovery;
pub mod double;
pub mod forge;
pub mod github;
pub mod guarded;
pub mod guarded_conformance;
pub mod guarded_model;
pub mod json;
pub mod messages;
pub mod provision;
pub mod runtime;
pub mod text;
