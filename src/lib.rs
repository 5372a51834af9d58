//! A closed set of five nucleobases, with verified classification,
//! letter-code conversion, parsing and complementation.

mod base;
mod codes;
mod error;
pub mod laws;

pub use base::Nucleobase;
pub use error::ConversionError;
