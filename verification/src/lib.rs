//! Line-oriented prompt relay: the decision logic of a streaming inference
//! front-end, with every rule stated as a contract and proved.
//!
//! - [`words`]: whitespace splitting of a rendered prompt.
//! - [`footer`]: the timing footer that closes each response.
//! - [`template`]: prompt templates and their rendering.
//! - [`session`]: the per-connection state machine.
//! - [`wire`]: what a connection writes, request after request.
//! - [`server`]: many connections side by side, and the accept loop.
//! - [`startup`]: settings and the progress of loading a model.

pub mod footer;
pub mod server;
pub mod session;
pub mod startup;
pub mod template;
pub mod wire;
pub mod words;
