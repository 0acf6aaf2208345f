//! Client-side orchestration of electronic-identification transactions:
//! the provider's wire vocabulary, request construction, the mutually
//! authenticated channel, and the polling state machine that waits for a
//! transaction to reach a terminal status.

pub mod domain;
pub mod orchestrator;
pub mod channel;
pub mod gateway;
pub mod wire;
pub mod qr;
