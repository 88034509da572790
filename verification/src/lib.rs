//! Discovery of API endpoints in web assets.
//!
//! The library holds the rules of a scan and proves them: which text is a
//! URL and of what kind ([`parser`]), which pages are fetched, in which
//! order and how many at once ([`scanner`], [`crawler`]), what an answer
//! of a server or of an extension means ([`crawler::client`],
//! [`plugins`]), and how the findings become a result without repeats.
//! Fetching, reading files and running extensions is left to the caller,
//! who hands over what was read as plain values.
//!
//! Regular expressions, URLs, response decoding and source maps are the
//! work of other crates. What the library assumes of them is stated where
//! they are called ([`engine`], [`crawler::address`], [`crawler::client`],
//! [`crawler::visited`], [`parser::sourcemap`]); everything else is
//! verified against those statements.

pub mod config;
pub mod crawler;
pub mod engine;
pub mod error;
pub mod output;
pub mod parser;
pub mod plugins;
pub mod scanner;
pub mod text;
pub mod types;

pub use error::Error;
pub use scanner::Scanner;
pub use types::{Endpoint, EndpointType};
