//! Parsing of figure-skating element codes into named, valued records.

pub mod element;
pub mod grammar;
pub mod table;
pub mod tokens;

pub use element::{parse_elements, total_base_value_tenths, ParseError, ParsedElement};
pub use grammar::{ElementFamily, ElementParser};
pub use table::{get_base_value, get_full_name};
pub use tokens::split_tokens;
