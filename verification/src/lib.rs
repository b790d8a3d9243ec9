//! A Microsoft SQL Server backend core for a generic query-building layer.
//!
//! The crate has two independent components:
//!
//! * [`row`] adapts one driver-native result row to a uniform field-access
//!   interface: positional and name-based column resolution, per-type null
//!   normalization, typed value extraction and re-indexed partial views.
//! * [`fragment`] is a small abstract syntax tree of schema-definition
//!   statements, rendered to SQL text per target dialect, with a specialized
//!   rendering rule for auto-increment primary-key integer columns under the
//!   SQL Server dialect.

pub mod fragment;
pub mod row;
