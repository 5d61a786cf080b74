//! String utilities with verified control flow around trusted date and
//! regular-expression libraries: date parsing with a two-format fallback,
//! extraction of a pattern's first capture group, and pattern-based
//! replacement. Every operation is a pure function of its string inputs;
//! absence of a result is an ordinary `None`, never an error or a panic.

pub mod dates;
pub mod matching;

pub use dates::date_parse;
pub use matching::regex_extract;
pub use matching::regex_replace;
