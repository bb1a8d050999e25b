//! Structured-logging core: entry construction, dual local/remote filtering,
//! a bounded non-blocking delivery queue with drop-based backpressure, a
//! dispatcher that fans entries out to a local writer and a remote transport
//! with bounded retry; alongside it, the on-chain-config value types, the
//! node-identity evaluator, and the replay decision helpers that share the
//! same node's toolbox.

pub mod config;
pub mod entry;
pub mod ext;
pub mod facade;
pub mod filter;
pub mod format;
pub mod identity;
pub mod json;
pub mod laws;
pub mod level;
pub mod queue;
pub mod replay;
pub mod service;
pub mod strutil;
pub mod transport;
pub mod writer;

pub use entry::{Event, Key, LogEntry, Metadata};
pub use facade::{AptosData, AptosDataBuilder, CHANNEL_SIZE};
pub use filter::{Filter, FilterPair};
pub use level::{Level, LevelFilter};
pub use service::{LoggerService, NUM_SEND_RETRIES};
pub use writer::Writer;
