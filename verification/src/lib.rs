//! Model acquisition and job coordination for a local voice-to-text tool.
//!
//! The library covers three concerns: classifying which speech models are
//! present on disk versus known but not yet downloaded (`catalog`), driving
//! an all-or-nothing download of a named model (`fetch`), and enforcing
//! single-flight execution of transcription jobs (`coordinator`). All file
//! and network I/O is performed by the surrounding application, which feeds
//! plain values in and carries the library's decisions out.

pub mod catalog;
pub mod config;
pub mod coordinator;
pub mod dialog;
pub mod error;
pub mod fetch;
pub mod fsutil;

pub use catalog::{model_items, model_relative_path};
pub use config::{Config, Socks5, UI};
pub use coordinator::JobCoordinator;
pub use error::VtError;
pub use fetch::ModelHandler;
pub use fsutil::{filename, pretty_size};
