//! The rows of the two tables and the payloads that create and change them.

pub mod course;
pub mod tutor;
