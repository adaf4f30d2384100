//! Conversation core for an interactive, locally loaded chat model.
//!
//! The library owns the turn-taking protocol of a terminal chat session:
//! how one user utterance is framed into a prompt, how the streamed reply
//! is filtered for the stop condition, and how the session state advances
//! from turn to turn.  Loading the model, reading lines and printing
//! tokens are left to the surrounding program.

pub mod config;
pub mod framing;
pub mod report;
pub mod session;
pub mod stream;
