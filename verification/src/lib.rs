//! Compares, across many git repositories, the checked-out HEAD against named
//! branches and classifies how the two relate.
pub mod classify;
pub mod detail;
pub mod distance;
pub mod filter;
pub mod gitrepo;
pub mod manifest;
pub mod model;
pub mod report;
pub mod scan;
pub mod task;
pub mod text;
pub mod utils;
