//! Argument handling and image synthesis for a small command-line image tool.
pub mod picture;
pub mod cli;
pub mod edit;
pub mod julia;
pub mod number;
