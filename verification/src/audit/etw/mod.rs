//! DPC/ISR latency tracking from kernel trace events.
pub mod monitor;
pub mod parser;
pub mod resolver;
