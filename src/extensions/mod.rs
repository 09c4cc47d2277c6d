pub mod export_dmabuf;
pub mod gtk_primary_selection;
pub mod virtual_keyboard;
