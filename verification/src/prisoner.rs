//! The two-player prisoner's-dilemma domain: a fixed pair of named
//! players, their actions, reward table, information sets and policies,
//! and a sequential two-turn environment.

pub mod agent;
pub mod common;
pub mod domain;
pub mod env;
