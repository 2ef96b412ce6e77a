//! A household-budget ledger: categories and records, amount and month
//! formatting, category aggregation, monthly summaries and spending
//! progress, the command-line grammar and the checks of each command, web
//! request checks and paging, and bearer-token handling.

pub mod model;
pub mod text;
pub mod fmt;
pub mod month;
pub mod totals;
pub mod report;
pub mod progress;
pub mod progress_lines;
pub mod args;
pub mod cli;
pub mod repository;
pub mod commands;
pub mod api;
pub mod auth;
