//! Automatic CPU frequency scaler and power saver: the rules that choose a
//! governor, the daemon's decisions, the protocol between the daemon and its
//! clients, the readers of the machine's sysfs and procfs texts, and the
//! text the program prints, with their contracts and laws.

pub mod args;
pub mod config;
pub mod cpu;
pub mod csv;
pub mod daemon;
pub mod display;
pub mod error;
pub mod gov;
pub mod graph;
pub mod interactive;
pub mod interface;
pub mod logger;
pub mod network;
pub mod power;
pub mod rule;
pub mod settings;
pub mod setup;
pub mod system;
pub mod text;
pub mod thermal;

pub use error::Error;
