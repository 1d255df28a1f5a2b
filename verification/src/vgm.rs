pub mod commands;
pub mod delay;
pub mod gd3;
pub mod header;
pub mod json;
pub mod reader;
pub mod writer;

pub use json::VgmJson;
pub use reader::VgmReader;
pub use writer::VgmWriter;
