//! Verified core of a desktop application's bootstrap: resolution of the
//! debug-log path, timestamped log lines and a model of the append-only log
//! file, the lifecycle state machine, and the static plugin list.

pub mod lifecycle;
pub mod logline;
pub mod paths;
pub mod plugins;
