pub mod bits;
pub mod bytes;
pub mod utils;
pub mod views;
