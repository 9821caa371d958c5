//! Verified core of a project-scaffolding tool: a template corpus,
//! a conditional-content resolver (token substitution and flag-gated
//! marker regions), an import extractor, and a planner that turns the
//! corpus into an explicit sequence of filesystem actions.

pub mod chars;
pub mod cli;
pub mod errors;
pub mod imports;
pub mod laws;
pub mod models;
pub mod plan;
pub mod resolver;
