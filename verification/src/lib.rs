//! Prompt composition, configuration handling and image naming for the
//! Mawaku background generator, with every rule stated as a contract.

pub mod cli;
pub mod config;
pub mod document;
pub mod gemini;
pub mod image;
pub mod json;
pub mod naming;
pub mod paths;
pub mod prompt;
pub mod request;
pub mod response;
pub mod text;
