//! A single-branch commit workflow: read the last commit of a repository,
//! report it, commit one new file on top of it and, on request, push.

pub mod error;
pub mod git;
pub mod report;
pub mod run;
pub mod step;
pub mod workflow;
