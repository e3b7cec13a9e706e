//! The decisions behind `quake`, the tool that runs and observes Arc testnets.

pub mod clean;
pub mod cli;
pub mod duration;
pub mod error;
pub mod nodes;
pub mod overrun;
pub mod prestart;
pub mod remote;
pub mod report;
pub mod resources;
pub mod restream;
pub mod text;
pub mod tools;
