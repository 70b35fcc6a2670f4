//! Client side of a multiplexed, length-framed service protocol: framing,
//! virtual service connections, the identity exchange and the orchestration
//! of the token workflow.

pub mod config;
pub mod demux;
pub mod denuvo;
pub mod error;
pub mod flow;
pub mod framing;
pub mod http;
pub mod login;
pub mod ownership;
