pub mod codec;
pub mod guid_prefix;
pub mod locator;
pub mod protocol_id;
pub mod protocol_version;
pub mod time;
pub mod vendor_id;
