//! Core of a command-line client for graph databases: backend selection,
//! query-result normalisation and rendering, latency benchmarking, and the
//! decisions of the command-line flow, each with a verified contract.

pub mod app;
pub mod benchmark;
pub mod calendar;
pub mod cmds;
pub mod domain;
pub mod json;
pub mod query;
pub mod repository;
pub mod service;
pub mod table;
pub mod text;
pub mod utils;
pub mod view;
