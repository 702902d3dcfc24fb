//! Development synchronization engine for a remote orchestration service:
//! change classification, ignore matching, archiving, request building and
//! the decisions of the watch loop, together with the thin API client model.

pub mod cleaner;
pub mod client;
pub mod cmd;
pub mod config;
pub mod context;
pub mod errors;
pub mod filesystem;
pub mod globals;
pub mod logger;
pub mod matcher;
pub mod paths;
pub mod pipeline;
pub mod resource;
pub mod schema;
pub mod sync;
pub mod tarball;
pub mod text;
pub mod utils;
pub mod watcher;
