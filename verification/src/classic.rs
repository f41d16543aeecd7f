//! The classic matrix-game domain: actions, reward tables, encounter
//! reports and the information sets and policies built on them.

pub mod agent;
pub mod common;
pub mod domain;
pub mod env;
pub mod policy;
