pub mod channel;
pub mod cipher;
pub mod command;
