pub mod layer_shell;
pub mod xdg_shell;
pub mod xdg_shell_v6;
