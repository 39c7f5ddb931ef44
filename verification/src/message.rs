pub mod header;
pub mod receiver;
