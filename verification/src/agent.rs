//! Decision logic of the agent runtime: tool policies, tool routing, the orchestration
//! loop, channel delivery, memory recall and the local worker's tools.
//!
//! The runtime's storage, HTTP calls and process execution happen around these
//! functions; each function here decides or computes from plain values.
pub mod records;
pub mod policy;
pub mod urlencode;
pub mod tools;
pub mod orchestration;
pub mod conversation;
pub mod reducers;
pub mod channels;
pub mod memory;
pub mod history;
pub mod llm;
pub mod worker;
pub mod worker_cli;
pub mod prompt;
pub mod laws;
