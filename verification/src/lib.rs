//! Decision logic of a file preview service: classifying inputs,
//! naming files, planning the external conversion tools, answering
//! errors, and keeping track of background preview jobs.

pub mod text;
pub mod types;
pub mod error;
pub mod external;
pub mod input;
pub mod detect;
pub mod commands;
pub mod naming;
pub mod jobs;
pub mod service;
pub mod workflow;
