//! Judging core of an online code checker: the catalog of problems, the
//! bounded dispatcher of pending submissions, the per-submission pipeline
//! that prepares a sandbox, runs the container and records one verdict, and
//! the status badges shown to users.
pub mod badge;
pub mod config;
pub mod dispatcher;
pub mod problems;
pub mod submission;
pub mod text;
pub mod unit;
