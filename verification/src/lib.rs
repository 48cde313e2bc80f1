//! A lab-scope adversary-emulation toolkit: the verified core of an implant
//! ("agent") that registers with a command-and-control server, of the
//! operator client that drives it, and of the shared wire protocol both
//! speak.
//!
//! Everything that decides or computes lives here with a contract; the thin
//! unverified shell around it (process startup, files, network, SSH) only
//! moves bytes between this library and the outside world.

pub mod agent_config;
pub mod client_api;
pub mod client_config;
pub mod crypto;
pub mod error;
pub mod jobs;
pub mod protocol;
pub mod register;
pub mod shellcode;
pub mod spread;
pub mod uid;
pub mod wordlist;

pub use error::Error;
