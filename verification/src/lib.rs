//! Policy and reconciliation engine for deploying an application together
//! with its dependency services onto a container engine.
//!
//! Everything here is a pure function of plain values: the surrounding
//! program talks to the engine, the file system and the terminal, and hands
//! this library what it observed.

pub mod cli;
pub mod commands;
pub mod config;
pub mod constants;
pub mod context;
pub mod docker;
pub mod error;
pub mod network;
pub mod services;
pub mod ssh;
pub mod utils;
