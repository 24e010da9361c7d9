//! Verified core of the document service: the records it keeps, the checks it
//! applies to requests, the permission rules, the optimistic-lock update of page
//! content and the nesting of a space's nodes into a tree.

pub mod entity;
pub mod error;
pub mod ids;
pub mod text;
pub mod repo;
pub mod routes;
pub mod tree;
