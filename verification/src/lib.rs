//! A logging sink that renders records either as bracketed lines for a
//! terminal or as one-line JSON objects for log ingestion, chosen by the
//! deployment environment.
//!
//! Everything here is pure: the caller reads the clock, the thread identity
//! and the process environment, hands them in as plain values, and writes
//! the returned line to the returned stream.

pub mod clock;
pub mod config;
pub mod environment;
pub mod format;
pub mod init;
pub mod level;
pub mod logger;
pub mod record;
pub mod text;

pub use clock::WallClock;
pub use config::{read_settings, ConfigError, Settings, ENVIRONMENT_VARIABLE, LEVEL_VARIABLE};
pub use environment::FiaasEnv;
pub use format::{assemble_structured, format_log_fiaas, format_log_local, json_quote};
pub use init::{init, init_env, try_init, Registry, RegistryView, SetLoggerError};
pub use level::{Level, LevelFilter};
pub use logger::{Emission, FiaasLogger, LoggerView, Stream};
pub use record::{Record, ThreadInfo};
