//! Scaffolding for new Android application projects: from a display name and a
//! dotted package identifier, the directories to create, the text of each file,
//! and the ordered steps that make the project on disk.

pub mod cli;
pub mod layout;
pub mod laws;
pub mod names;
pub mod sources;
