//! The reports written for the audited projects.

pub mod html;
pub mod json;
pub mod page;
