//! Review synthesis for pull requests: diff statistics, heuristic findings,
//! narrative sections and a rendered text report.

pub mod listing;
pub mod metrics;
pub mod narrative;
pub mod report;
pub mod review;
pub mod scanner;
pub mod text;
