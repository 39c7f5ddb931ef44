pub mod instance_handle;
