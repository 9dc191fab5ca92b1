//! Session orchestration for an interactive chat agent: input classification,
//! conversation history, token accounting, streamed turns and command dispatch.

pub mod action;
pub mod commands;
pub mod config;
pub mod format;
pub mod history;
pub mod ledger;
pub mod math;
pub mod runner;
pub mod state;
pub mod turn;
pub mod web;
