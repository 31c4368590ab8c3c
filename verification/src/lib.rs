//! Recovery of billing fields from noisy document text, rule-based
//! validation of the recovered fields, and routing of the validated
//! claim to a work queue.

pub mod codes;
pub mod date;
pub mod datefind;
pub mod decimal;
pub mod ids;
pub mod lifecycle;
pub mod money;
pub mod names;
pub mod parser;
pub mod router;
pub mod rules;
pub mod text;
pub mod types;
