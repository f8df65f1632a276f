//! Running the coding assistant with its input and output translated.

pub mod injector;
