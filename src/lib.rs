pub mod cell;
pub mod error;
pub mod header;
pub mod job;
pub mod upload;
