//! A commit-message pipeline: check that the working directory is under
//! version control, translate the given message into English, let the user
//! edit the translation on a pre-filled line, and commit the result.
//!
//! The library holds the pipeline's decision logic as a verified state
//! machine together with the text policy (trimming, emptiness, decoding)
//! that the stages apply. All process and terminal interaction is left to
//! the surrounding binary, which performs the actions this library asks
//! for and feeds the outcomes back as events.

pub mod errors;
pub mod event;
pub mod pipeline;
pub mod stage;
pub mod text;
