//! The records of the doc schema, held as plain values.

pub mod node;
pub mod space;
pub mod space_member;
pub mod version;
