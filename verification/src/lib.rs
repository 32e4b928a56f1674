//! Aether: a distributed task executor for Python scripts.
//!
//! This crate holds the verified core of the broker, the worker and the
//! command line client: task and worker models, the in-memory task storage
//! with its priority queues, leases and worker registry, the JSON-RPC framing
//! and dispatch rules, the HTTP API's answers, the decisions taken by each
//! side of the protocol, and the client's configuration, task files and
//! terminal interface state. The `*_laws` modules state what holds across
//! several operations.

pub mod capabilities;
pub mod task;
pub mod maps;
pub mod text;
pub mod auth;
pub mod clock;
pub mod storage;
pub mod storage_laws;
pub mod jrpc;
pub mod params;
pub mod http;
pub mod external;
pub mod broker;
pub mod broker_laws;
pub mod api;
pub mod worker;
pub mod commands;
pub mod error;
pub mod config;
pub mod client;
pub mod tui;
pub mod widgets;
pub mod redis_keys;
