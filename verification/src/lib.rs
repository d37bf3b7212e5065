//! Verified core of an FTP/FTPS server that replicates uploads in the
//! background: argument validation and server settings, the login check,
//! what the server's notifications become, the job queue and its retry and
//! worker decisions, event bookkeeping, the storage backends' path and error
//! logic, the relay client's identity, replies and credential steps, and the
//! `relay init` command's choices.
pub mod text;
pub mod paths;
pub mod clock;
pub mod config;
pub mod auth;
pub mod utils;
pub mod storage;
pub mod event;
pub mod job;
pub mod background;
pub mod premium;
pub mod logger;
pub mod cli;
pub mod server;

pub use config::{validate_directory, validate_username, Args};
pub use event::FtpEvent;
pub use utils::generate_random_string;
