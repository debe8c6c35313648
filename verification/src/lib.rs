//! Core of a browser chat client that streams a language-model reply token by
//! token: an append-only conversation log and the coordinator state machine
//! that routes a submitted user message out and the inbound reply fragments
//! into a single open assistant placeholder. The surrounding runtime (page
//! wiring, the websocket itself, rendering) lives outside this crate and
//! reports plain events to the coordinator.

pub mod conversation;
pub mod coordinator;
pub mod laws;
pub mod message;
