//! Safe handles over natively owned compositor objects.
//!
//! Native objects are identified by their address and may be destroyed by the
//! native side at any time. The [`liveliness`] table records, for every wrapped
//! object, whether it is still live and whether it is currently borrowed;
//! handles re-validate against it before every use.
//!
//! - [`liveliness`]: the token table, and the scoped borrow behind every `run`.
//! - [`types`], [`input`]: owned wrappers and handles of the native objects.
//! - [`user_data`]: the objects' user-data slots, keyed by address.
//! - [`signal`], [`listener`]: native signal lists and the listener bridge
//!   that answers on them.
//! - [`manager`]: the handler traits, and the registrars that make a wrapper
//!   and a bridge for each new object and tear them down in order.
//! - [`extensions`]: protocol globals that are created and destroyed whole.

pub mod extensions;
pub mod input;
pub mod liveliness;
pub mod listener;
pub mod manager;
pub mod signal;
pub mod types;
pub mod user_data;

pub use crate::liveliness::{HandleErr, HandleResult, Liveliness, Token, TokenState, WeakRef};
pub use crate::types::shell::layer_shell::{
    LayerSurface, LayerSurfaceConfigure, LayerSurfaceHandle, LayerSurfaceState,
};
pub use crate::types::shell::xdg_shell_v6::{
    XdgV6Popup, XdgV6ShellState, XdgV6ShellSurface, XdgV6ShellSurfaceHandle, XdgV6TopLevel,
};
pub use crate::types::shell::xdg_shell::{OptionalShellState, Popup, ShellState, Surface, TopLevel};
pub use crate::types::output::mode::Mode;
