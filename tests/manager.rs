use std::cell::RefCell;
use std::rc::Rc;

use wlroots::manager::layer_shell_handler::LayerShellHandler;
use wlroots::manager::layer_shell_manager::{
    add_outcome, requested_output, AddOutcome, LayerShellManager, LayerShellManagerHandler,
    NativeLayerSurface, DESTROY_SLOT, MAP_SLOT,
};
use wlroots::signal::Signals;
use wlroots::{HandleErr, LayerSurfaceHandle, Liveliness};

type Log = Rc<RefCell<Vec<String>>>;

struct Shell {
    log: Log,
}

impl LayerShellHandler for Shell {
    fn on_map(&mut self, live: &mut Liveliness, mut layer_surface: LayerSurfaceHandle) {
        let ptr = layer_surface.run(live, |_, s| s.as_ptr()).unwrap();
        self.log.borrow_mut().push(format!("map {:#x}", ptr));
    }

    fn destroyed(&mut self, live: &mut Liveliness, mut layer_surface: LayerSurfaceHandle) {
        // The surface is still valid while its destroyed callback runs.
        let r = layer_surface.run(live, |_, s| s.as_ptr());
        self.log.borrow_mut().push(format!("destroyed {:?}", r));
    }
}

struct Factory {
    log: Log,
    make_handler: bool,
    assign_output: Option<usize>,
    handles: Vec<LayerSurfaceHandle>,
}

impl LayerShellManagerHandler<Shell> for Factory {
    fn new_surface(
        &mut self,
        _live: &mut Liveliness,
        layer_surface: LayerSurfaceHandle,
        output: &mut Option<usize>,
    ) -> Option<Shell> {
        self.handles.push(layer_surface);
        if output.is_none() {
            *output = self.assign_output;
        }
        if self.make_handler {
            Some(Shell { log: self.log.clone() })
        } else {
            None
        }
    }
}

fn native(signals: &mut Signals, ptr: usize, output: usize) -> NativeLayerSurface {
    NativeLayerSurface {
        ptr,
        output,
        destroy: signals.new_signal(),
        map: signals.new_signal(),
        unmap: signals.new_signal(),
    }
}

fn factory(log: &Log, make_handler: bool) -> Factory {
    Factory { log: log.clone(), make_handler, assign_output: None, handles: Vec::new() }
}

#[test]
fn destroy_runs_callback_once_then_unlinks() {
    let log: Log = Rc::new(RefCell::new(Vec::new()));
    let mut live = Liveliness::new();
    let mut signals = Signals::new();
    let mut manager = LayerShellManager::new(factory(&log, true));
    let surface = native(&mut signals, 0x1000, 0x9000);
    assert_eq!(manager.add_notify(&mut live, &mut signals, &surface), AddOutcome::Managed);
    assert!(manager.is_managed(0x1000));
    assert_eq!(signals.subscribers(surface.destroy).len(), 1);
    assert_eq!(signals.subscribers(surface.map).len(), 1);
    assert_eq!(signals.subscribers(surface.unmap).len(), 1);

    assert_eq!(manager.emit(&mut live, &mut signals, surface.destroy), 1);
    assert_eq!(*log.borrow(), vec!["destroyed Ok(4096)".to_string()]);
    assert!(!manager.is_managed(0x1000));
    assert_eq!(manager.len(), 0);
    assert!(signals.subscribers(surface.destroy).is_empty());
    assert!(signals.subscribers(surface.map).is_empty());
    assert!(signals.subscribers(surface.unmap).is_empty());

    // Firing again reaches nothing.
    assert_eq!(manager.emit(&mut live, &mut signals, surface.destroy), 0);
    assert_eq!(manager.emit(&mut live, &mut signals, surface.map), 0);
    assert_eq!(log.borrow().len(), 1);
}

#[test]
fn handles_die_with_the_destroyed_surface() {
    let log: Log = Rc::new(RefCell::new(Vec::new()));
    let mut live = Liveliness::new();
    let mut signals = Signals::new();
    let mut manager = LayerShellManager::new(factory(&log, true));
    let surface = native(&mut signals, 0x1000, 0x9000);
    manager.add_notify(&mut live, &mut signals, &surface);
    let mut handle = manager.handler().handles[0];
    assert_eq!(handle.run(&mut live, |_, s| s.as_ptr()), Ok(0x1000));
    manager.emit(&mut live, &mut signals, surface.destroy);
    assert_eq!(handle.run(&mut live, |_, _| ()), Err(HandleErr::AlreadyDropped));
}

#[test]
fn declined_surface_is_not_managed() {
    let log: Log = Rc::new(RefCell::new(Vec::new()));
    let mut live = Liveliness::new();
    let mut signals = Signals::new();
    let mut manager = LayerShellManager::new(factory(&log, false));
    let surface = native(&mut signals, 0x1000, 0x9000);
    assert_eq!(manager.add_notify(&mut live, &mut signals, &surface), AddOutcome::Declined);
    assert_eq!(manager.len(), 0);
    assert!(signals.subscribers(surface.destroy).is_empty());
    // A later destroy of the same native surface is a no-op.
    assert_eq!(manager.emit(&mut live, &mut signals, surface.destroy), 0);
    assert!(log.borrow().is_empty());
}

#[test]
fn surface_without_output_is_closed() {
    let log: Log = Rc::new(RefCell::new(Vec::new()));
    let mut live = Liveliness::new();
    let mut signals = Signals::new();
    let mut manager = LayerShellManager::new(factory(&log, true));
    let surface = native(&mut signals, 0x1000, 0);
    assert_eq!(manager.add_notify(&mut live, &mut signals, &surface), AddOutcome::Closed);
    assert_eq!(manager.len(), 0);
    assert!(signals.subscribers(surface.destroy).is_empty());
}

#[test]
fn surface_gets_output_from_factory() {
    let log: Log = Rc::new(RefCell::new(Vec::new()));
    let mut live = Liveliness::new();
    let mut signals = Signals::new();
    let mut f = factory(&log, true);
    f.assign_output = Some(0x9000);
    let mut manager = LayerShellManager::new(f);
    let surface = native(&mut signals, 0x1000, 0);
    assert_eq!(manager.add_notify(&mut live, &mut signals, &surface), AddOutcome::Managed);
    assert_eq!(manager.len(), 1);
}

#[test]
fn declined_surface_handle_is_dropped() {
    let log: Log = Rc::new(RefCell::new(Vec::new()));
    let mut live = Liveliness::new();
    let mut signals = Signals::new();
    let mut manager = LayerShellManager::new(factory(&log, false));
    let surface = native(&mut signals, 0x1000, 0x9000);
    manager.add_notify(&mut live, &mut signals, &surface);
    let mut handle = manager.handler().handles[0];
    assert_eq!(handle.run(&mut live, |_, _| ()), Err(HandleErr::AlreadyDropped));
}

#[test]
fn two_surfaces_are_independent() {
    let log: Log = Rc::new(RefCell::new(Vec::new()));
    let mut live = Liveliness::new();
    let mut signals = Signals::new();
    let mut manager = LayerShellManager::new(factory(&log, true));
    let first = native(&mut signals, 0x1000, 0x9000);
    let second = native(&mut signals, 0x2000, 0x9000);
    assert_eq!(manager.add_notify(&mut live, &mut signals, &first), AddOutcome::Managed);
    assert_eq!(manager.add_notify(&mut live, &mut signals, &second), AddOutcome::Managed);
    assert_eq!(manager.len(), 2);

    assert_eq!(manager.emit(&mut live, &mut signals, first.destroy), 1);
    assert!(!manager.is_managed(0x1000));
    assert!(manager.is_managed(0x2000));
    assert_eq!(manager.emit(&mut live, &mut signals, second.map), 1);
    assert_eq!(
        *log.borrow(),
        vec!["destroyed Ok(4096)".to_string(), "map 0x2000".to_string()]
    );
    // Unmap uses the default, which does nothing.
    assert_eq!(manager.emit(&mut live, &mut signals, second.unmap), 1);
    assert_eq!(log.borrow().len(), 2);
}

#[test]
fn signals_of_destroyed_surface_reach_nothing() {
    let log: Log = Rc::new(RefCell::new(Vec::new()));
    let mut live = Liveliness::new();
    let mut signals = Signals::new();
    let mut manager = LayerShellManager::new(factory(&log, true));
    let first = native(&mut signals, 0x1000, 0x9000);
    let second = native(&mut signals, 0x2000, 0x9000);
    manager.add_notify(&mut live, &mut signals, &first);
    manager.add_notify(&mut live, &mut signals, &second);
    manager.emit(&mut live, &mut signals, first.destroy);
    assert_eq!(manager.emit(&mut live, &mut signals, first.map), 0);
    assert_eq!(manager.emit(&mut live, &mut signals, first.unmap), 0);
    let mut second_handle = manager.handler().handles[1];
    assert_eq!(second_handle.run(&mut live, |_, s| s.as_ptr()), Ok(0x2000));
}

#[test]
fn notify_ignores_unknown_listener() {
    let log: Log = Rc::new(RefCell::new(Vec::new()));
    let mut live = Liveliness::new();
    let mut signals = Signals::new();
    let mut manager = LayerShellManager::new(factory(&log, true));
    let surface = native(&mut signals, 0x1000, 0x9000);
    manager.add_notify(&mut live, &mut signals, &surface);
    let stranger = signals.new_listener();
    assert_eq!(manager.notify(&mut live, &mut signals, stranger), None);
    let map_node = signals.subscribers(surface.map)[0];
    assert_eq!(manager.notify(&mut live, &mut signals, map_node), Some(MAP_SLOT));
    let destroy_node = signals.subscribers(surface.destroy)[0];
    assert_eq!(manager.notify(&mut live, &mut signals, destroy_node), Some(DESTROY_SLOT));
    assert_eq!(manager.notify(&mut live, &mut signals, destroy_node), None);
}

#[test]
fn outcome_follows_output_then_handler() {
    assert_eq!(add_outcome(None, true), AddOutcome::Closed);
    assert_eq!(add_outcome(None, false), AddOutcome::Closed);
    assert_eq!(add_outcome(Some(0x9000), false), AddOutcome::Declined);
    assert_eq!(add_outcome(Some(0x9000), true), AddOutcome::Managed);
}

#[test]
fn requested_output_is_none_for_null() {
    let mut signals = Signals::new();
    assert_eq!(requested_output(&native(&mut signals, 0x1000, 0)), None);
    assert_eq!(requested_output(&native(&mut signals, 0x1000, 0x9000)), Some(0x9000));
}

#[test]
fn shared_destroy_signal_drops_every_subscribed_surface() {
    let log: Log = Rc::new(RefCell::new(Vec::new()));
    let mut live = Liveliness::new();
    let mut signals = Signals::new();
    let mut manager = LayerShellManager::new(factory(&log, true));
    let first = native(&mut signals, 0x1000, 0x9000);
    let mut second = native(&mut signals, 0x2000, 0x9000);
    second.destroy = first.destroy;
    manager.add_notify(&mut live, &mut signals, &first);
    manager.add_notify(&mut live, &mut signals, &second);
    assert_eq!(manager.emit(&mut live, &mut signals, first.destroy), 2);
    assert_eq!(manager.len(), 0);
    assert_eq!(log.borrow().len(), 2);
}
