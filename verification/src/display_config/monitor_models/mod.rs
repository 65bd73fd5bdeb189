pub mod monitor;
pub mod transform;

pub use monitor::{MonitorDescription, MonitorDescriptionView};
pub use transform::{Displacement, Orientation, Rotation, Transform};
