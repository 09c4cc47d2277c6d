use wlroots::{
    HandleErr, LayerSurface, LayerSurfaceHandle, Liveliness, Popup,
    ShellState, Surface, TopLevel, XdgV6Popup, XdgV6ShellState, XdgV6ShellSurface,
    XdgV6ShellSurfaceHandle, XdgV6TopLevel,
};
use wlroots::types::shell::xdg_shell::Handle;
use wlroots::user_data::UserData;

#[test]
fn run_on_live_handle_returns_runner_result() {
    let mut live = Liveliness::new();
    let surface = LayerSurface::new(&mut live, 0x1000);
    let mut handle = surface.weak_reference();
    let r = handle.run(&mut live, |_, s| s.as_ptr() + 1);
    assert_eq!(r, Ok(0x1001));
}

#[test]
fn run_after_release_is_already_dropped() {
    let mut live = Liveliness::new();
    let surface = LayerSurface::new(&mut live, 0x1000);
    let mut handle = surface.weak_reference();
    surface.release(&mut live);
    let r = handle.run(&mut live, |_, _| 7);
    assert_eq!(r, Err(HandleErr::AlreadyDropped));
    // A later table operation does not bring it back.
    let _other = LayerSurface::new(&mut live, 0x1000);
    assert_eq!(handle.run(&mut live, |_, _| 7), Err(HandleErr::AlreadyDropped));
}

#[test]
fn run_after_release_is_already_dropped_for_xdg_surfaces() {
    let mut live = Liveliness::new();
    let mut data = UserData::new();
    let mut v6_data = UserData::new();
    let v6 = XdgV6ShellSurface::new(&mut live, &mut v6_data, 0x2000, None);
    let v6_handle = v6.weak_reference();
    v6.release(&mut live, &mut v6_data);
    assert_eq!(v6_handle.run(&mut live, |_, _| ()), Err(HandleErr::AlreadyDropped));

    let stable = Surface::new(&mut live, &mut data, 0x3000, None);
    let mut stable_handle = stable.weak_reference();
    stable.release(&mut live, &mut data);
    assert_eq!(stable_handle.run(&mut live, |_, _| ()), Err(HandleErr::AlreadyDropped));
}

#[test]
fn nested_run_on_same_handle_is_already_borrowed() {
    let mut live = Liveliness::new();
    let surface = LayerSurface::new(&mut live, 0x1000);
    let handle = surface.weak_reference();
    let mut outer = handle;
    let r = outer.run(&mut live, |live, s| {
        let mut inner = handle;
        let first = inner.run(live, |_, _| 1);
        // The outer borrow is still in place after the nested failure.
        let second = inner.run(live, |_, _| 2);
        (first, second, s.as_ptr())
    });
    assert_eq!(
        r,
        Ok((Err(HandleErr::AlreadyBorrowed), Err(HandleErr::AlreadyBorrowed), 0x1000))
    );
    // The borrow was given back.
    assert_eq!(outer.run(&mut live, |_, _| 3), Ok(3));
}

#[test]
fn nested_run_on_other_handle_is_allowed() {
    let mut live = Liveliness::new();
    let mut v6_data = UserData::new();
    let a = XdgV6ShellSurface::new(&mut live, &mut v6_data, 0x1000, None);
    let b = XdgV6ShellSurface::new(&mut live, &mut v6_data, 0x2000, None);
    let ha = a.weak_reference();
    let hb = b.weak_reference();
    let r = ha.run(&mut live, |live, _| hb.run(live, |_, s| s.as_ptr()));
    assert_eq!(r, Ok(Ok(0x2000)));
}

#[test]
fn weak_references_compare_equal_and_validate_independently() {
    let mut live = Liveliness::new();
    let surface = LayerSurface::new(&mut live, 0x1000);
    let mut h1 = surface.weak_reference();
    let mut h2 = surface.weak_reference();
    assert!(h1 == h2);
    assert_eq!(h1.run(&mut live, |_, _| 1), Ok(1));
    assert_eq!(h2.run(&mut live, |_, _| 2), Ok(2));
    surface.release(&mut live);
    assert_eq!(h1.run(&mut live, |_, _| 1), Err(HandleErr::AlreadyDropped));
    assert_eq!(h2.run(&mut live, |_, _| 2), Err(HandleErr::AlreadyDropped));
}

#[test]
fn upgrade_then_weak_reference_round_trips() {
    let mut live = Liveliness::new();
    let mut data = UserData::new();
    let mut v6_data = UserData::new();
    let surface = LayerSurface::new(&mut live, 0x1000);
    let mut handle = surface.weak_reference();
    let first = handle;
    let again = handle.run(&mut live, |_, s| s.weak_reference()).unwrap();
    assert!(again == first);

    let v6 = XdgV6ShellSurface::new(&mut live, &mut v6_data, 0x2000, None);
    let v6_handle = v6.weak_reference();
    let v6_again = v6_handle.run(&mut live, |_, s| s.weak_reference()).unwrap();
    assert!(v6_again == v6_handle);

    let stable = Surface::new(&mut live, &mut data, 0x3000, None);
    let mut stable_handle = stable.weak_reference();
    let stable_again = stable_handle.run(&mut live, |_, s| s.weak_reference()).unwrap();
    assert!(stable_again == stable_handle);
}

#[test]
fn null_handles_never_run_and_differ_from_real_ones() {
    let mut live = Liveliness::new();
    let surface = LayerSurface::new(&mut live, 0x1000);
    let mut null = LayerSurfaceHandle::new();
    assert_eq!(null.run(&mut live, |_, _| ()), Err(HandleErr::AlreadyDropped));
    assert!(null != surface.weak_reference());
    assert!(LayerSurfaceHandle::default() == null);
    assert_eq!(null.as_ptr(), 0);

    let v6_null = XdgV6ShellSurfaceHandle::default();
    assert_eq!(v6_null.run(&mut live, |_, _| ()), Err(HandleErr::AlreadyDropped));
    let mut stable_null = Handle::new();
    assert_eq!(stable_null.run(&mut live, |_, _| ()), Err(HandleErr::AlreadyDropped));
}

#[test]
fn distinct_objects_have_distinct_handles() {
    let mut live = Liveliness::new();
    let a = LayerSurface::new(&mut live, 0x1000);
    let b = LayerSurface::new(&mut live, 0x2000);
    let ha = a.weak_reference();
    let mut hb = b.weak_reference();
    assert!(ha != hb);
    a.release(&mut live);
    assert_eq!(hb.run(&mut live, |_, s| s.as_ptr()), Ok(0x2000));
}

#[test]
fn stale_handle_fails_after_address_reuse() {
    let mut live = Liveliness::new();
    let a = LayerSurface::new(&mut live, 0x1000);
    let mut stale = a.weak_reference();
    a.release(&mut live);
    let b = LayerSurface::new(&mut live, 0x1000);
    let mut fresh = b.weak_reference();
    // Same address, so they compare equal, but only the new one upgrades.
    assert!(stale == fresh);
    assert_eq!(stale.run(&mut live, |_, _| ()), Err(HandleErr::AlreadyDropped));
    assert_eq!(fresh.run(&mut live, |_, _| ()), Ok(()));
}

#[test]
fn xdg_v6_role_is_kept_and_can_be_changed() {
    let mut live = Liveliness::new();
    let mut v6_data = UserData::new();
    let toplevel = XdgV6TopLevel::from_shell(0x2000, 0x2100);
    let mut surface = XdgV6ShellSurface::new(&mut live, &mut v6_data, 0x2000, Some(XdgV6ShellState::TopLevel(toplevel)));
    match surface.state() {
        Some(XdgV6ShellState::TopLevel(t)) => assert_eq!(t.as_ptr(), 0x2100),
        _ => panic!("expected a top level"),
    }
    let popup = XdgV6Popup::from_shell(0x2000, 0x2200);
    if let Some(state) = surface.state() {
        *state = XdgV6ShellState::Popup(popup);
    }
    assert_eq!(surface.state().copied(), Some(XdgV6ShellState::Popup(popup)));
    let handle = surface.weak_reference();
    let role = handle.run(&mut live, |_, s| s.state().copied()).unwrap();
    assert_eq!(role, Some(XdgV6ShellState::Popup(popup)));

    let mut bare = XdgV6ShellSurface::new(&mut live, &mut v6_data, 0x3000, None);
    assert!(bare.state().is_none());
}

#[test]
fn xdg_role_is_kept_in_handles() {
    let mut live = Liveliness::new();
    let mut data = UserData::new();
    let popup = Popup::from_shell(0x4000, 0x4100);
    let surface = Surface::new(&mut live, &mut data, 0x4000, Some(ShellState::Popup(popup)));
    let mut handle = surface.weak_reference();
    let role = handle.run(&mut live, |_, s| s.state().copied()).unwrap();
    assert_eq!(role, Some(ShellState::Popup(popup)));
    let toplevel = TopLevel::from_shell(0x5000, 0x5100);
    assert_eq!(toplevel.as_ptr(), 0x5100);
}

#[test]
fn handle_is_rebuilt_from_user_data() {
    let mut live = Liveliness::new();
    let mut data = UserData::new();
    let popup = Popup::from_shell(0x4000, 0x4100);
    let surface = Surface::new(&mut live, &mut data, 0x4000, Some(ShellState::Popup(popup)));
    let mut rebuilt = Handle::from_ptr(&data, 0x4000).unwrap();
    assert!(rebuilt == surface.weak_reference());
    assert_eq!(rebuilt.run(&mut live, |_, s| s.state().copied()), Ok(Some(ShellState::Popup(popup))));
    assert!(Handle::from_ptr(&data, 0).is_none());
    assert!(Handle::from_ptr(&data, 0x5000).is_none());
    surface.release(&mut live, &mut data);
    assert!(Handle::from_ptr(&data, 0x4000).is_none());
    assert_eq!(rebuilt.run(&mut live, |_, _| ()), Err(HandleErr::AlreadyDropped));
}

#[test]
fn xdg_v6_handle_is_rebuilt_from_user_data() {
    let mut live = Liveliness::new();
    let mut v6_data = UserData::new();
    let toplevel = XdgV6TopLevel::from_shell(0x2000, 0x2100);
    let surface = XdgV6ShellSurface::new(&mut live, &mut v6_data, 0x2000, Some(XdgV6ShellState::TopLevel(toplevel)));
    let rebuilt = XdgV6ShellSurfaceHandle::from_ptr(&v6_data, 0x2000);
    assert!(rebuilt == surface.weak_reference());
    assert_eq!(rebuilt.run(&mut live, |_, s| s.as_ptr()), Ok(0x2000));
    surface.release(&mut live, &mut v6_data);
    // The slot is empty again, so the object can be set up anew.
    let again = XdgV6ShellSurface::new(&mut live, &mut v6_data, 0x2000, None);
    let newer = XdgV6ShellSurfaceHandle::from_ptr(&v6_data, 0x2000);
    assert_eq!(newer.run(&mut live, |_, s| s.state().is_none()), Ok(true));
    assert!(newer == rebuilt);
    assert_eq!(rebuilt.run(&mut live, |_, _| ()), Err(HandleErr::AlreadyDropped));
}

#[test]
fn releasing_the_lent_wrapper_keeps_the_owner() {
    let mut live = Liveliness::new();
    let surface = LayerSurface::new(&mut live, 0x1000);
    let mut handle = surface.weak_reference();
    let mut data = UserData::new();
    let stable = Surface::new(&mut live, &mut data, 0x3000, None);
    let mut stable_handle = stable.weak_reference();
    // Take the lent wrapper out of the runner and release it.
    let mut stolen = None;
    let _ = handle.run(&mut live, |_, s| {
        let lent = std::mem::replace(s, LayerSurface::new(&mut Liveliness::new(), 0));
        stolen = Some(lent);
    });
    stolen.unwrap().release(&mut live);
    assert_eq!(handle.run(&mut live, |_, s| s.as_ptr()), Ok(0x1000));
    let mut stolen_stable = None;
    let _ = stable_handle.run(&mut live, |_, s| {
        let lent = std::mem::replace(s, Surface::new(&mut Liveliness::new(), &mut UserData::new(), 0x9, None));
        stolen_stable = Some(lent);
    });
    stolen_stable.unwrap().release(&mut live, &mut data);
    assert!(Handle::from_ptr(&data, 0x3000).is_some());
    assert_eq!(stable_handle.run(&mut live, |_, s| s.as_ptr()), Ok(0x3000));
    surface.release(&mut live);
    assert_eq!(handle.run(&mut live, |_, _| ()), Err(HandleErr::AlreadyDropped));
}
