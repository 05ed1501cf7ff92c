//! Billing, metering and agent-runtime decision logic for the ZeroClaw agent platform.
pub mod agent;
pub mod billing;
pub mod text;
