//! A builder for declarative visualization documents: charts are assembled
//! from typed element records (data series, scales, axes, marks) and emitted
//! as a JSON document in the exact field layout the target grammar expects.
//!
//! Every serializer carries a contract pinning the exact text it emits, so
//! the shape of the document — field names, field order, escaping, number
//! rendering — is proved rather than sampled.

pub mod area_chart;
pub mod bar_chart;
pub mod bar_elements;
pub mod general;
pub mod json;
