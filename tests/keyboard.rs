use std::cell::RefCell;
use std::rc::Rc;

use wlroots::input::keyboard::{Handle, Key};
use wlroots::manager::keyboard_handler::{
    Handler, KeyboardWrapper, NativeKeyboard, DESTROY_SLOT, KEY_SLOT, REPEAT_SLOT,
};
use wlroots::signal::Signals;
use wlroots::{HandleErr, Liveliness};

type Log = Rc<RefCell<Vec<String>>>;

struct Keys {
    log: Log,
}

impl Handler for Keys {
    fn on_key(&mut self, live: &mut Liveliness, keyboard_handle: Handle, event: &Key) {
        let ptr = keyboard_handle.run(live, |_, k| k.as_ptr()).unwrap();
        self.log.borrow_mut().push(format!("key {} {} {:#x}", event.keycode, event.pressed, ptr));
    }

    fn modifiers(&mut self, _live: &mut Liveliness, _keyboard_handle: Handle) {
        self.log.borrow_mut().push("modifiers".to_string());
    }

    fn destroyed(&mut self, live: &mut Liveliness, keyboard_handle: Handle) {
        let r = keyboard_handle.run(live, |_, k| k.as_ptr());
        self.log.borrow_mut().push(format!("destroyed {:?}", r));
    }
}

fn native(signals: &mut Signals, ptr: usize) -> NativeKeyboard {
    NativeKeyboard {
        ptr,
        destroy: signals.new_signal(),
        key: signals.new_signal(),
        modifiers: signals.new_signal(),
        keymap: signals.new_signal(),
        repeat_info: signals.new_signal(),
    }
}

#[test]
fn keyboard_events_reach_the_handler() {
    let log: Log = Rc::new(RefCell::new(Vec::new()));
    let mut live = Liveliness::new();
    let mut signals = Signals::new();
    let device = native(&mut signals, 0x7000);
    let mut wrapper = KeyboardWrapper::new(&mut live, &mut signals, &device, Keys { log: log.clone() });
    let key_node = signals.subscribers(device.key)[0];
    assert_eq!(wrapper.slot_of(key_node), Some(KEY_SLOT));
    let repeat_node = signals.subscribers(device.repeat_info)[0];
    assert_eq!(wrapper.slot_of(repeat_node), Some(REPEAT_SLOT));
    wrapper.key_notify(&mut live, &Key { time_msec: 5, keycode: 30, pressed: true });
    wrapper.modifiers_notify(&mut live);
    // Not overridden: nothing happens.
    wrapper.keymap_notify(&mut live);
    wrapper.repeat_notify(&mut live);
    assert_eq!(*log.borrow(), vec!["key 30 true 0x7000".to_string(), "modifiers".to_string()]);
}

#[test]
fn keyboard_destroy_calls_back_then_unlinks_and_drops() {
    let log: Log = Rc::new(RefCell::new(Vec::new()));
    let mut live = Liveliness::new();
    let mut signals = Signals::new();
    let device = native(&mut signals, 0x7000);
    let wrapper = KeyboardWrapper::new(&mut live, &mut signals, &device, Keys { log: log.clone() });
    let handle = wrapper.keyboard_handle();
    let destroy_node = signals.subscribers(device.destroy)[0];
    assert_eq!(wrapper.slot_of(destroy_node), Some(DESTROY_SLOT));
    assert_eq!(wrapper.slot_of(destroy_node + 100), None);
    wrapper.destroy_notify(&mut live, &mut signals);
    assert_eq!(*log.borrow(), vec!["destroyed Ok(28672)".to_string()]);
    for signal in [device.destroy, device.key, device.modifiers, device.keymap, device.repeat_info] {
        assert!(signals.subscribers(signal).is_empty());
    }
    assert_eq!(handle.run(&mut live, |_, _| ()), Err(HandleErr::AlreadyDropped));
}
