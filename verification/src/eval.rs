//! Evaluations: requests, graders, reports, and the comparison of two
//! checkpoints.
//!
//! Scores are `f64` values; they are held here by their IEEE-754 bit
//! patterns.

use vstd::prelude::*;

use crate::outside::{ExJsonValue, Timestamp};

verus! {

/// What an evaluation looks at.
#[derive(Debug, Clone)]
pub enum EvalTarget {
    Session { session_id: u128 },
    Artifact { path: String },
    Diff { before: String, after: String },
}

/// A grader and its configuration.
#[derive(Debug, Clone)]
pub struct GraderSpec {
    pub name: String,
    pub config: serde_json::Value,
}

/// A request to evaluate a target.
#[derive(Debug, Clone)]
pub struct EvalRequest {
    pub name: String,
    pub target: EvalTarget,
    pub graders: Vec<GraderSpec>,
}

/// One grader's verdict.
#[derive(Debug, Clone)]
pub struct GradeResult {
    pub grader: String,
    pub passed: bool,
    /// The score, as the IEEE-754 bits of an `f64`.
    pub score_bits: u64,
    pub details: String,
    pub evidence: serde_json::Value,
}

/// The report of an evaluation.
#[derive(Debug, Clone)]
pub struct EvalReport {
    pub name: String,
    pub passed: bool,
    /// The score, as the IEEE-754 bits of an `f64`.
    pub score_bits: u64,
    pub grades: Vec<GradeResult>,
    pub completed_at: Timestamp,
}

/// How a file changed between two checkpoints.
#[derive(Debug, Clone, Copy, PartialEq, Eq, Structural, Hash)]
pub enum ChangeType {
    Added,
    Modified,
    Deleted,
    Renamed,
}

/// A file changed between two checkpoints.
#[derive(Debug, Clone)]
pub struct FileChange {
    pub path: String,
    pub change_type: ChangeType,
    pub lines_added: u32,
    pub lines_removed: u32,
}

/// The comparison of two checkpoints.
#[derive(Debug, Clone)]
pub struct DiffReport {
    pub checkpoint_a: u128,
    pub checkpoint_b: u128,
    pub files_changed: Vec<FileChange>,
    pub summary: String,
    pub regression_detected: bool,
}

} // verus!
