//! Finding the container definitions to audit.

pub mod dfiles;
