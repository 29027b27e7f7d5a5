//! Answers whether Yoda is taller than a character of the people registry.
//!
//! [`swapi`] holds the registry client: it forms the address of a search and
//! classifies what came back. [`taller`] holds the comparison built on it.
//! [`address`] encodes a name into the address of a search, and [`height`]
//! reads a height out of the registry's text. [`trusted`] lists what is
//! assumed of `reqwest` and of the standard library.

pub mod address;
pub mod height;
pub mod swapi;
pub mod taller;
pub mod trusted;
