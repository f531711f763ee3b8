//! The logic of `rage-quit`, the most dramatic way to leave a project:
//! analysis of the project, the resignation letter, the frames of the
//! animations, the sound patterns and the decisions of each phase.
pub mod text;
pub mod entropy;
pub mod analyzer;
pub mod animation;
pub mod sound;
pub mod letter;
pub mod phases;
