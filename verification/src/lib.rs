//! Request-scoping, role and report logic of the service layer: who an RPC
//! caller is, which keys it may see and with which quotas, which day a usage report covers, how the
//! token totals of a report are normalised, when an account fails over, and how
//! model-group requests are routed.

pub mod text;
pub mod calendar;
pub mod actor;
pub mod access;
pub mod day_bounds;
pub mod token_summary;
pub mod failover;
pub mod model_groups;
pub mod api_keys;
