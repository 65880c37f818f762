//! Action references of workflow steps (`uses:` values), parsed and
//! classified, and a navigable model of workflows, jobs and steps.

pub mod text;
pub mod uses;
pub mod laws;
pub mod location;
pub mod model;
