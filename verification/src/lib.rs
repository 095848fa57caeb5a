//! Verified core of a Bybit linear-futures trading bot: the table of tradable
//! USDT contracts and their recent prices, the handling of ticker pushes, and
//! the construction and signing of order requests.

pub mod contracts;
pub mod state;
pub mod text;
pub mod instruments;
pub mod signing;
pub mod json;
pub mod ticker;
pub mod orders;
pub mod stream;
pub mod news;
