//! The interactive commands: their metadata, documentation, and the pure
//! computation behind each one. The surrounding application wires these to
//! its console.

pub mod base64_cmd;
pub mod echo;
pub mod json_cmd;
pub mod portinfo_cmd;
pub mod procwatch_cmd;
