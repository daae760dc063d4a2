//! Streams newline-delimited JSON out of a build tool's output, sifts it by its
//! `reason` field, and turns the diagnostics it carries into findings for Phabricator.
pub mod lines;
pub mod stream;
pub mod jsonl;
pub mod text;
pub mod report;
pub mod check;
pub mod fmt;
pub mod run;
pub mod unit;
pub mod arcconfig;
