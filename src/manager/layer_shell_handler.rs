//! Handler for layer shell clients.
use vstd::prelude::*;
use crate::liveliness::Liveliness;
use crate::types::shell::layer_shell::LayerSurfaceHandle;

verus! {

/// Handles events from one client layer surface. Every method does nothing
/// unless the implementation says otherwise.
pub trait LayerShellHandler {
    /// Called when the surface is ready to be mapped: it should be added to
    /// the list of views now.
    fn on_map(&mut self, live: &mut Liveliness, layer_surface: LayerSurfaceHandle) {
    }

    /// Called when the surface should be unmapped: it should be removed from
    /// the list of views, and may be mapped again later.
    fn on_unmap(&mut self, live: &mut Liveliness, layer_surface: LayerSurfaceHandle) {
    }

    /// Called when the layer surface is destroyed, while its handle still
    /// upgrades.
    fn destroyed(&mut self, live: &mut Liveliness, layer_surface: LayerSurfaceHandle) {
    }
}

} // verus!
