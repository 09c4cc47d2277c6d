pub mod data_device;
pub mod output;
pub mod shell;
