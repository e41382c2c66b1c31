//! The persist-invoke-capture workflow of a single-document editor shell:
//! the editor's state, the paths of a compile attempt, the rule that picks
//! the stream to show, and the transitions between them.

pub mod editor;
pub mod events;
pub mod laws;
pub mod paths;
pub mod streams;
