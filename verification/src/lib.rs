//! Model of a multi-monitor display setup and the rules that turn a change
//! requested for one monitor into the configuration of all of them.
//!
//! - [`display_config`] holds one snapshot of the display server's state:
//!   physical monitors with their modes, the logical monitors arranged from
//!   them, and the lookup of the pair that belongs to a connector. Its
//!   [`gamma`](display_config::gamma) module picks the entries of a gamma
//!   ramp that brightness and gamma are fitted to.
//! - [`modify`] applies requested changes to one logical monitor and builds
//!   the list of configurations that is sent back, one for every logical
//!   monitor.
//! - [`text`] and [`seq_find`] are the tools that both are built from.
//!
//! Every function is verified against the contract that it states, but for
//! the one in [`text`] that hands a text to `str::to_lowercase`. Real numbers
//! pass through the library as [`binary64::Binary64`]; computing with them,
//! like talking to the display server, is left to the caller.

pub mod binary64;
pub mod display_config;
pub mod error;
pub mod modify;
pub mod seq_find;
pub mod text;

pub use display_config::DisplayConfig;
pub use error::Error;
