pub mod decode;
pub mod paths;
pub mod records;
pub mod report;
pub mod state;
pub mod text;
