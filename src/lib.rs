//! A sandboxed code-execution engine: a registry of language recipes, a
//! resource policy, the construction of isolated-container invocations and a
//! supervisor that drives one execution from validation to teardown.

pub mod config;
pub mod docker_executor;
pub mod runners;
pub mod sandbox;
pub mod text;
pub mod utils;
