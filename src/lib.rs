//! Small, fully specified building blocks: arithmetic, strings, records,
//! tagged messages, optional and fallible values, and a tiny trait.
pub mod basics;
pub mod collections;
pub mod message;
pub mod parse;
pub mod speak;
pub mod text;
pub mod user;
