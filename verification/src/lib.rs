//! Bundled vendor tools: locate an executable inside an embedded archive,
//! stream it out while hashing, and keep track of where each tool is mounted.

pub mod bundle;
pub mod digest;
pub mod error;
pub mod index;
pub mod mount;
pub mod reader;
pub mod stream;
pub mod tool;
pub mod zippedtools;

pub use bundle::Bundle;
pub use error::ToolError;
pub use mount::{MountTable, MountedTool};
pub use reader::SliceReader;
pub use tool::Tool;
pub use zippedtools::ZippedTools;
