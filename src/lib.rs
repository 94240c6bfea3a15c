//! Generating files of a requested size: parsing size expressions such as
//! `10mb`, validating the invocation, and synthesising the file's content.

pub mod content;
pub mod error;
pub mod file_size;
pub mod validate;
