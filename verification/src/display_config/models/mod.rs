pub mod crtc;
pub mod logical_monitor;
pub mod output;
pub mod physical_monitor;

pub use crtc::Crtc;
pub use logical_monitor::LogicalMonitor;
pub use output::Output;
pub use physical_monitor::{KnownModeProperties, Mode, PhysicalMonitor};
