//! The thin client of the remote orchestration API, as plain values:
//! requests are built here, sent elsewhere, and their answers judged here.

pub mod accounts;
pub mod actors;
pub mod client;
pub mod errors;
pub mod json;
pub mod oauth;
pub mod playbooks;
