// Type names ending in `_t` follow the protocol specification's own naming.
#![allow(non_camel_case_types)]

pub mod common;
pub mod message;
pub mod structure;
