//! A broadcast of change messages to any number of readers, each of which keeps
//! its own local value and applies the messages to it only when asked.
//!
//! Writers (`TcWriter`) publish messages onto one shared `bus::Bus`; readers
//! (`TcReader`) hold a cursor into that bus together with a local value of a
//! type that implements `TakesMessage`.
mod channel;
pub mod reader;
pub mod replica;
pub mod writer;

pub use reader::TcReader;
pub use replica::TakesMessage;
pub use writer::ConfigError;
pub use writer::TcWriter;
