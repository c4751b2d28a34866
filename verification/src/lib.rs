//! Historical prices and profiles of a ticker symbol, as the part of a client
//! that decides: which address to ask, what a reply means, and which rows and
//! records come out of it. Fetching is left to the caller.

pub mod decimal;
pub mod error;
pub mod history;
pub mod interval;
pub mod profile;
pub mod text;
pub mod yahoo;

pub use error::YahooError;
pub use history::{Bar, Frame};
pub use interval::Interval;
pub use profile::{Address, Company, Fund, Profile};
