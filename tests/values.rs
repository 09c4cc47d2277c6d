use wlroots::extensions::export_dmabuf::ZManagerV1 as DmabufManager;
use wlroots::extensions::gtk_primary_selection::Manager as PrimarySelectionManager;
use wlroots::extensions::virtual_keyboard::ZManagerV1 as VirtualKeyboardManager;
use wlroots::listener::ListenerBridge;
use wlroots::signal::Signals;
use wlroots::types::data_device::manager::Manager as DataDeviceManager;
use wlroots::user_data::UserData;
use wlroots::{LayerSurfaceConfigure, LayerSurfaceState, Mode};

#[test]
fn globals_are_none_when_creation_failed() {
    assert!(DmabufManager::new(0).is_none());
    assert!(VirtualKeyboardManager::new(0).is_none());
    assert!(PrimarySelectionManager::new(0).is_none());
    assert!(DataDeviceManager::new(0).is_none());
}

#[test]
fn globals_keep_their_address() {
    let dmabuf = DmabufManager::new(0x10).unwrap();
    assert_eq!(dmabuf.as_ptr(), 0x10);
    assert_eq!(dmabuf.destroy(), 0x10);
    let keyboards = VirtualKeyboardManager::new(0x20).unwrap();
    assert_eq!(keyboards.destroy(), 0x20);
    assert_eq!(PrimarySelectionManager::new(0x30).unwrap().as_ptr(), 0x30);
    assert_eq!(DataDeviceManager::new(0x40).unwrap().as_ptr(), 0x40);
}

#[test]
fn mode_reports_its_values() {
    let mode = Mode::new(1920, 1080, 60000);
    assert_eq!(mode.dimensions(), (1920, 1080));
    assert_eq!(mode.refresh(), 60000);
}

#[test]
fn layer_surface_state_reports_its_fields() {
    let state = LayerSurfaceState {
        anchor: 5,
        exclusive_zone: -1,
        margin_top: 1,
        margin_right: 2,
        margin_bottom: 3,
        margin_left: 4,
        keyboard_interactive: true,
        desired_width: 300,
        desired_height: 40,
        actual_width: 1920,
        actual_height: 40,
    };
    assert_eq!(state.anchor(), 5);
    assert_eq!(state.exclusive_zone(), -1);
    assert_eq!(state.margin(), (1, 2, 3, 4));
    assert!(state.keyboard_interactive());
    assert_eq!(state.desired_size(), (300, 40));
    assert_eq!(state.actual_size(), (1920, 40));
    let configure = LayerSurfaceConfigure { serial: 9, state };
    assert_eq!(configure.serial(), 9);
    assert_eq!(configure.state(), state);
}

#[test]
fn user_data_slots_fill_replace_and_empty() {
    let mut data: UserData<u32> = UserData::new();
    assert_eq!(data.get(0x10), None);
    data.insert(0x10, 1);
    data.insert(0x20, 2);
    assert_eq!(data.get(0x10), Some(1));
    data.insert(0x10, 3);
    assert_eq!(data.get(0x10), Some(3));
    assert_eq!(data.remove(0x10), Some(3));
    assert_eq!(data.get(0x10), None);
    assert_eq!(data.remove(0x10), None);
    assert_eq!(data.get(0x20), Some(2));
}

#[test]
fn signals_list_subscribers_in_order() {
    let mut signals = Signals::new();
    let a = signals.new_signal();
    let b = signals.new_signal();
    assert_eq!((a, b), (0, 1));
    let l0 = signals.new_listener();
    let l1 = signals.new_listener();
    let l2 = signals.new_listener();
    signals.add(a, l2);
    signals.add(b, l1);
    signals.add(a, l0);
    assert_eq!(signals.subscribers(a), vec![l0, l2]);
    assert_eq!(signals.linked(l1), Some(b));
    signals.remove(l2);
    assert_eq!(signals.subscribers(a), vec![l0]);
    assert_eq!(signals.linked(l2), None);
    assert_eq!(signals.linked(99), None);
    assert!(signals.subscribers(7).is_empty());
}

#[test]
fn bridge_nodes_are_fresh_and_unlink_together() {
    let mut signals = Signals::new();
    let s = signals.new_signal();
    let other = signals.new_listener();
    signals.add(s, other);
    let bridge = ListenerBridge::new(&mut signals, "payload", 3);
    assert_eq!(bridge.listener(0), 1);
    assert_eq!(bridge.listener(2), 3);
    assert_eq!(bridge.slot_of(2), Some(1));
    assert_eq!(bridge.slot_of(other), None);
    bridge.subscribe(&mut signals, 0, s);
    bridge.subscribe(&mut signals, 2, s);
    assert_eq!(signals.subscribers(s), vec![other, 1, 3]);
    bridge.unlink_all(&mut signals);
    assert_eq!(signals.subscribers(s), vec![other]);
    assert_eq!(*bridge.data(), "payload");
    assert_eq!(bridge.into_data(), "payload");
}
