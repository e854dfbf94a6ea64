//! File-transfer engine: the per-transfer protocol decisions, the live
//! transfer registry, the persistent ledger model and the reconnection rules,
//! each stated as a verified state machine.

pub mod error;
pub mod events;
pub mod storage;
pub mod ledger;
pub mod json;
pub mod reconnect;
pub mod chunk;
pub mod config;
pub mod api_config;
pub mod device;
pub mod manager;
pub mod protocol;
pub mod client_v5;
pub mod client_v2;
