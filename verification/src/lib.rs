//! A project-template generation engine: the rules that map a project kind
//! (React web, React Native mobile, Rust binary or library) and a handful of
//! option flags to a deterministic directory skeleton and file set.
//!
//! Everything here is pure: a generator run is planned in full — directories,
//! file paths, file texts — and the plan is handed back as plain values.
//! Carrying a plan out (creating the directories, writing the files, running
//! the external build tool, printing) is left to the caller.

pub mod content;
pub mod engine;
pub mod errors;
pub mod manifest;
pub mod plan;
pub mod router;
