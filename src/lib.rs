//! A persistent key/value store kept in one flat text file, and the rules
//! that turn command-line arguments and piped names into an operation on it.

pub mod command;
pub mod config;
pub mod error;
pub mod name;
pub mod store;
pub mod text;

pub use command::{execute, resolve, Command, Operation};
pub use config::{data_dir, failure_report, Failure};
pub use error::{Error, ErrorKind};
pub use name::{check_name, collect_names};
pub use store::Store;
