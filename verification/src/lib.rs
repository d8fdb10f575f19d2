//! Verified core of the BRAVR bitrate adaptation: the integer and
//! bookkeeping logic of access-point telemetry, bitrate control and the
//! learning agent, each function proved against its contract.

pub mod ap_stats;
pub mod ap_telemetry;
pub mod bitrate;
pub mod field_values;
pub mod learning_env;
pub mod sarsa_agent;
pub mod statistics;
pub mod text_table;
