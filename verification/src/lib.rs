//! Single-table encoding of datasets, users and their relationships.

pub mod attr;
pub mod data_structs;
pub mod dispatch;
pub mod edges;
pub mod errors;
pub mod keys;
pub mod response;
pub mod sanitize;
pub mod text;
