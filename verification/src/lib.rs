//! Auditing of container definitions: discovery of Dockerfiles and
//! Containerfiles, the command plans that build and inspect their images,
//! parsing of the package listings found inside, and the report pages.

pub mod audit;
pub mod cli;
pub mod container;
pub mod descrip;
pub mod explore;
pub mod logging;
pub mod paths;
pub mod progress;
pub mod report;
pub mod text;
pub mod workflow;
