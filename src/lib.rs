//! Publish, list and delete markdown posts kept in an object-storage bucket
//! and a REST table: the decisions and the text that the requests carry.

pub mod text;
pub mod frontmatter;
pub mod slugs;
pub mod reconcile;
pub mod config;
pub mod remote;
pub mod delete;
pub mod publish;
