//! A demo-environment harness: it asks what to stand up, plans the work, drives the external tools
//! that do it, and shows what is running.
//!
//! Every decision is a verified function over plain data. What touches the terminal, the file
//! system or a process is left to the binary around this library.

pub mod text;
pub mod passages;
pub mod reading;
pub mod journal;
pub mod model;
pub mod wizard;
pub mod runner;
pub mod error;
pub mod state;
pub mod util;
pub mod update;
pub mod aws;
pub mod manifests;
pub mod plan;
pub mod terraform;
pub mod styled;
pub mod app;
pub mod errand;
pub mod handoff;
pub mod collection;
pub mod dashboard;
pub mod board;
pub mod tui;
pub mod progress;
pub mod ui;
pub mod context;
pub mod cli;
pub mod session;
pub mod course;
