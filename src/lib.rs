//! An interactive chat client for a remote text-generation endpoint.
//!
//! The library holds the conversation transcript, the reserved commands that
//! edit it, the request built from it for every call, and the decisions taken
//! before and after each call. Terminal and network work stay with the caller.
pub mod gemini;
pub mod cliutils;
pub mod chatroutine;
