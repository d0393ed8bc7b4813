//! Verified core of a payload loader.
//!
//! The library models the injection pipeline — fetching a payload over a
//! primary/fallback pair of content endpoints, choosing an injection
//! technique per target, and driving a single-flight injection session to a
//! terminal outcome — as explicitly specified state machines over plain
//! values. All I/O (network, filesystem, subprocesses) is performed by an
//! unverified shell that executes the actions these machines request and
//! feeds the observed events back in.

pub mod text;
pub mod strategy;
pub mod fetch;
pub mod session;
pub mod orchestrator;
pub mod hacks;
pub mod helper;
pub mod statistics;
pub mod logger;
pub mod rpc;
pub mod steam;
pub mod config;
pub mod ui;
