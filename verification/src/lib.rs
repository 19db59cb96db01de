//! An append-only, line-oriented audit log of simulated endpoint actions,
//! together with the process-identity resolver that fills its `user`
//! field.

pub mod clock;
pub mod commands;
pub mod json;
pub mod log;
pub mod resolver;
pub mod sink;
