//! Verified core of the memory service.

pub mod action;
pub mod assess;
pub mod attention;
pub mod cli;
pub mod cognitive;
pub mod formation;
pub mod json;
pub mod kip;
pub mod nexus;
pub mod prompts;
pub mod recall;
pub mod runtime;
pub mod spelling;
pub mod tally;
pub mod text;
pub mod wake;
pub mod walk;
