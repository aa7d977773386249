pub mod filter;
pub mod gain;
pub mod gui;
pub mod indicator_state;
pub mod info;
pub mod protocol;
pub mod registry;
pub mod session;
pub mod volume;

pub use info::MoondropInfo;
pub use protocol::{DAWN_PRO_PID, MOONDROP_VID};
pub use registry::Moondrop;
