pub mod keyboard_handler;
pub mod layer_shell_handler;
pub mod layer_shell_manager;
