//! Interop model and memory-lifecycle rules for hosting a managed runtime.

pub mod appdomain;
pub mod assembly;
pub mod dispatch;
pub mod driver;
pub mod host;
pub mod marshal;
pub mod methodinfo;
pub mod payload;
pub mod registry;
pub mod scrub;
pub mod status;
pub mod utf16;
