//! gogit: the decision and text-processing core of an AI-powered git companion.
//!
//! Everything that talks to the terminal, the file system, git, or an AI
//! service lives in the application; this library holds the logic that turns
//! plain values into plain values, with its behaviour stated and proved.
pub mod text;
pub mod paths;
pub mod testgen;
pub mod theme;
pub mod cybersec;
pub mod ai;
pub mod tools;
pub mod requests;
pub mod git;
pub mod layout;
pub mod agent;
pub mod cli;
pub mod review;
pub mod refactor;
pub mod search;
pub mod doc;
pub mod hook;
pub mod config;
pub mod github;
pub mod json;
pub mod calls;
