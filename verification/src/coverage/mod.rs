//! Explicitly sampled functional coverage primitives.

/// Shared coverage identifier validation.
pub mod identifier;
/// Exact coverage ratio.
pub mod ratio;
/// Fixed-point coverage percentage.
pub mod percentage;
/// Declarative matcher representation and validation.
pub mod matcher;
/// Coverage bin model.
pub mod bin;
/// Structured coverpoint errors.
pub mod error;
/// Coverpoint runtime.
pub mod coverpoint;
/// Structured cross coverage errors.
pub mod cross_error;
/// Complete two-way cross coverage.
pub mod cross;
/// Immutable coverage snapshots.
pub mod snapshot;
/// Type-erased coverage item views.
pub mod item;
/// Structured coverage-group errors.
pub mod group_error;
/// Coverage-group identity, validation and summaries.
pub mod group;
/// Structured coverage-session errors.
pub mod session_error;
/// Per-test coverage sessions.
pub mod session;
/// Coverage model definition and runtime errors.
pub mod model_error;
/// Declared coverage models and their validated instances.
pub mod model;
/// Persistence errors.
pub mod artifact_error;
/// Definition fingerprints.
pub mod fingerprint;
/// Persistent per-test coverage artifacts.
pub mod artifact;
/// Byte-lexicographic order of text.
pub mod order;
/// Structured merge errors.
pub mod merge_error;
/// Deterministic merging of coverage artifacts.
pub mod merge;
/// Counter sums of compatible coverage snapshots.
pub mod merge_counters;
/// Merging of group snapshots that share an instance path.
pub mod merge_group;
/// Merged coverage documents.
pub mod merge_document;
/// Report options and shared report formatting.
pub mod report;
/// Plain-text coverage reports.
pub mod report_text;
/// Persisted records of artifacts and merged documents.
pub mod record;
/// Rebuilding bins and ratios from persisted records.
pub mod decode_bins;
/// Rebuilding coverage items from persisted records.
pub mod decode_items;
/// Rebuilding groups from persisted records.
pub mod decode_group;
/// Rebuilding per-test artifacts from persisted records.
pub mod decode_artifact;
/// Rebuilding merged documents from persisted records.
pub mod decode_merge;
/// HTML coverage reports.
pub mod report_html;
/// Writing artifacts and merged documents as persisted records.
pub mod encode;
/// Well-formedness of captured coverage data.
pub mod validity;
/// Laws of writing and reading back coverage documents.
pub mod persistence;
/// Independence of merging from the order of its inputs.
pub mod merge_order;
