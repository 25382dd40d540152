//! Provisioning and bootstrap of a single node of a permissioned ledger network.
//!
//! Provisioning derives the node's keys from one master seed and builds the
//! configuration records that describe it. Bootstrap brings the node's
//! subsystems up in the one order that cannot deadlock. Everything here works on
//! plain values: reading and writing files, and the subsystems themselves, are
//! the caller's business.

pub mod address;
pub mod application;
pub mod builder;
pub mod commands;
pub mod config;
pub mod error;
pub mod executor;
pub mod key_seed;
pub mod launcher;
pub mod node;
pub mod path;
pub mod peer_info;
pub mod storage;
pub mod text;
pub mod transaction;
pub mod verification;
