//! The local manifest schema: characters, playbooks and workspaces.

pub mod character;
pub mod manifest;
pub mod playbook;
pub mod workspace;
