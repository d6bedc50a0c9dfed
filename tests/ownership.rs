use apiw::device_context::{DeviceContextKind, LocalDeviceContext};
use apiw::handle::{Error, Handle};
use apiw::menu::ForeignMenu;
use apiw::object::{Bitmap, PenBuilder};
use apiw::ownership::{Foreign, Ledger, Local, ManagedData, NativeCall, ShareableData};
use apiw::paint::PaintStructure;
use apiw::window::{ForeignWindow, ForeignWindowClass};

fn h(bits: usize) -> Handle {
    Handle::from_bits(bits)
}

fn pen(ledger: &mut Ledger, bits: usize) -> apiw::object::Pen {
    PenBuilder::new().create(h(bits), 0, ledger).unwrap()
}

fn paint_structure(hdc: usize) -> PaintStructure {
    PaintStructure { hdc: h(hdc), erase: false, left: 0, top: 0, right: 10, bottom: 10 }
}

#[test]
fn exclusive_release_deletes_once_after_move() {
    let mut ledger = Ledger::new();
    let dc = LocalDeviceContext::new_compatible_memory_dc(h(40), 0).unwrap();
    let moved = dc;
    let boxed = vec![moved];
    for dc in boxed {
        dc.release(&mut ledger);
    }
    assert_eq!(ledger.take_calls(), vec![NativeCall::DeleteDC(h(40))]);
}

#[test]
fn exclusive_window_release_destroys_it() {
    let mut ledger = Ledger::new();
    let window = Local::attached_entity(ForeignWindow::new_from_attached(h(7)).unwrap().data_ref().share());
    window.release(&mut ledger);
    assert_eq!(ledger.take_calls(), vec![NativeCall::DestroyWindow(h(7))]);
}

#[test]
fn shared_pen_deleted_after_last_clone() {
    let mut ledger = Ledger::new();
    let p = pen(&mut ledger, 11);
    let group = p.share_group();
    let c1 = p.clone_shared(&mut ledger);
    let c2 = c1.clone_shared(&mut ledger);
    let c3 = p.clone_shared(&mut ledger);
    assert_eq!(ledger.holders_of(group), 4);
    c2.release(&mut ledger);
    assert_eq!(ledger.pending(), 0);
    p.release(&mut ledger);
    assert_eq!(ledger.pending(), 0);
    c3.release(&mut ledger);
    assert_eq!(ledger.pending(), 0);
    assert_eq!(ledger.holders_of(group), 1);
    c1.release(&mut ledger);
    assert_eq!(ledger.take_calls(), vec![NativeCall::DeleteObject(h(11))]);
    assert_eq!(ledger.holders_of(group), 0);
}

#[test]
fn shared_pen_without_clones_deleted_on_release() {
    let mut ledger = Ledger::new();
    let p = pen(&mut ledger, 12);
    p.release(&mut ledger);
    assert_eq!(ledger.take_calls(), vec![NativeCall::DeleteObject(h(12))]);
}

#[test]
fn foreign_entities_release_nothing() {
    let mut ledger = Ledger::new();
    let a = ForeignWindow::new_from_attached(h(5)).unwrap();
    let b = a.clone_foreign();
    a.release(&mut ledger);
    b.release(&mut ledger);
    let m1 = ForeignMenu::new_from_attached(h(6)).unwrap();
    let m2 = ForeignMenu::new_from_attached(h(6)).unwrap();
    m1.release(&mut ledger);
    m2.release(&mut ledger);
    assert_eq!(ledger.pending(), 0);
    assert!(ledger.take_calls().is_empty());
}

#[test]
fn foreign_attach_of_null_gives_nothing() {
    assert!(ForeignWindow::new_from_attached(Handle::null()).is_none());
    assert!(ForeignMenu::new_from_attached(Handle::null()).is_none());
}

#[test]
fn failed_acquisition_records_nothing() {
    let mut ledger = Ledger::new();
    let r = PenBuilder::new().create(Handle::null(), 1450, &mut ledger);
    assert_eq!(r.err(), Some(Error::from_code(1450)));
    let r = Bitmap::load_from_resource_id(3, Handle::null(), 1814, &mut ledger);
    assert_eq!(r.err(), Some(Error::from_code(1814)));
    let r = LocalDeviceContext::new_compatible_memory_dc(Handle::null(), 8);
    assert_eq!(r.err(), Some(Error::from_code(8)));
    let window = ForeignWindow::new_from_attached(h(9)).unwrap();
    let r = window.do_paint(paint_structure(0), 1400);
    assert_eq!(r.err(), Some(Error::from_code(1400)));
    assert_eq!(ledger.pending(), 0);
    assert_eq!(ledger.holders_of(0), 0);
}

#[test]
fn select_two_pens_then_release() {
    let mut ledger = Ledger::new();
    let mut s = LocalDeviceContext::new_compatible_memory_dc(h(100), 0).unwrap();
    let p1 = pen(&mut ledger, 1);
    let p2 = pen(&mut ledger, 2);
    assert_eq!(s.select_pen(p1, h(50), 0, &mut ledger), Ok(()));
    assert_eq!(s.data_ref().original_pen(), Some(h(50)));
    assert_eq!(ledger.pending(), 0);
    assert_eq!(s.select_pen(p2, h(1), 0, &mut ledger), Ok(()));
    assert_eq!(s.data_ref().original_pen(), Some(h(50)));
    assert_eq!(ledger.take_calls(), vec![NativeCall::DeleteObject(h(1))]);
    s.release(&mut ledger);
    assert_eq!(
        ledger.take_calls(),
        vec![
            NativeCall::SelectObject { dc: h(100), object: h(50) },
            NativeCall::DeleteObject(h(2)),
            NativeCall::DeleteDC(h(100)),
        ]
    );
}

#[test]
fn second_select_keeps_original() {
    let mut ledger = Ledger::new();
    let mut s = LocalDeviceContext::new_compatible_memory_dc(h(101), 0).unwrap();
    assert_eq!(s.data_ref().original_pen(), None);
    let p1 = pen(&mut ledger, 3);
    let p2 = pen(&mut ledger, 4);
    s.select_pen(p1, h(60), 0, &mut ledger).unwrap();
    s.select_pen(p2, h(3), 0, &mut ledger).unwrap();
    assert_eq!(s.data_ref().original_pen(), Some(h(60)));
    let b1 = Bitmap::load_from_resource_id(1, h(70), 0, &mut ledger).unwrap();
    let b2 = Bitmap::load_from_resource_id(2, h(71), 0, &mut ledger).unwrap();
    s.select_bitmap(b1, h(61), 0, &mut ledger).unwrap();
    s.select_bitmap(b2, h(70), 0, &mut ledger).unwrap();
    assert_eq!(s.data_ref().original_bitmap(), Some(h(61)));
    assert_eq!(s.data_ref().original_pen(), Some(h(60)));
}

#[test]
fn failed_select_keeps_state_and_drops_pen() {
    let mut ledger = Ledger::new();
    let mut s = LocalDeviceContext::new_compatible_memory_dc(h(102), 0).unwrap();
    let p1 = pen(&mut ledger, 5);
    s.select_pen(p1, h(80), 0, &mut ledger).unwrap();
    let p2 = pen(&mut ledger, 6);
    assert_eq!(s.select_pen(p2, Handle::null(), 87, &mut ledger), Err(Error::from_code(87)));
    assert_eq!(s.data_ref().original_pen(), Some(h(80)));
    assert_eq!(ledger.take_calls(), vec![NativeCall::DeleteObject(h(6))]);
    s.release(&mut ledger);
    assert_eq!(
        ledger.take_calls(),
        vec![
            NativeCall::SelectObject { dc: h(102), object: h(80) },
            NativeCall::DeleteObject(h(5)),
            NativeCall::DeleteDC(h(102)),
        ]
    );
}

#[test]
fn restore_twice_is_noop() {
    let mut ledger = Ledger::new();
    let mut s = LocalDeviceContext::new_compatible_memory_dc(h(103), 0).unwrap();
    let p = pen(&mut ledger, 7);
    let b = Bitmap::load_from_resource_id(1, h(8), 0, &mut ledger).unwrap();
    s.select_pen(p, h(90), 0, &mut ledger).unwrap();
    s.select_bitmap(b, h(91), 0, &mut ledger).unwrap();
    s.reset_to_initial_state(&mut ledger);
    assert_eq!(
        ledger.take_calls(),
        vec![
            NativeCall::SelectObject { dc: h(103), object: h(90) },
            NativeCall::DeleteObject(h(7)),
            NativeCall::SelectObject { dc: h(103), object: h(91) },
            NativeCall::DeleteObject(h(8)),
        ]
    );
    s.reset_to_initial_state(&mut ledger);
    assert_eq!(ledger.pending(), 0);
    assert_eq!(s.data_ref().original_pen(), None);
    s.release(&mut ledger);
    assert_eq!(ledger.take_calls(), vec![NativeCall::DeleteDC(h(103))]);
}

#[test]
fn shared_pen_in_two_surfaces_deleted_after_both() {
    let mut ledger = Ledger::new();
    let mut s1 = LocalDeviceContext::new_compatible_memory_dc(h(110), 0).unwrap();
    let mut s2 = LocalDeviceContext::new_compatible_memory_dc(h(111), 0).unwrap();
    let p = pen(&mut ledger, 9);
    let p_again = p.clone_shared(&mut ledger);
    s1.select_pen(p, h(1), 0, &mut ledger).unwrap();
    s2.select_pen(p_again, h(2), 0, &mut ledger).unwrap();
    s1.release(&mut ledger);
    assert_eq!(
        ledger.take_calls(),
        vec![NativeCall::SelectObject { dc: h(110), object: h(1) }, NativeCall::DeleteDC(h(110))]
    );
    s2.release(&mut ledger);
    assert_eq!(
        ledger.take_calls(),
        vec![
            NativeCall::SelectObject { dc: h(111), object: h(2) },
            NativeCall::DeleteObject(h(9)),
            NativeCall::DeleteDC(h(111)),
        ]
    );
}

#[test]
fn paint_cycle_untouched_ends_once() {
    let mut ledger = Ledger::new();
    let window = ForeignWindow::new_from_attached(h(20)).unwrap();
    let ps = paint_structure(30);
    let cycle = window.do_paint(ps, 0).unwrap();
    assert_eq!(cycle.data_ref().raw_handle(), h(30));
    assert_eq!(cycle.data_ref().surface().data_ref().kind(), DeviceContextKind::Special);
    cycle.release(&mut ledger);
    assert_eq!(ledger.take_calls(), vec![NativeCall::EndPaint { window: h(20), paint: ps }]);
}

#[test]
fn paint_cycle_restores_before_ending() {
    let mut ledger = Ledger::new();
    let window = ForeignWindow::new_from_attached(h(21)).unwrap();
    let ps = paint_structure(31);
    let mut cycle = window.do_paint(ps, 0).unwrap();
    let p = pen(&mut ledger, 15);
    cycle.data_mut().surface_mut().select_pen(p, h(16), 0, &mut ledger).unwrap();
    cycle.release(&mut ledger);
    assert_eq!(
        ledger.take_calls(),
        vec![
            NativeCall::SelectObject { dc: h(31), object: h(16) },
            NativeCall::DeleteObject(h(15)),
            NativeCall::EndPaint { window: h(21), paint: ps },
        ]
    );
}

#[test]
fn window_class_from_atom() {
    assert_eq!(ForeignWindowClass::create_managed(0, 1410).err(), Some(Error::from_code(1410)));
    let class = ForeignWindowClass::create_managed(0xC001, 0).unwrap();
    assert_eq!(class.data_ref().atom(), 0xC001);
    let owned = Local::attached_entity(class.data_ref().share());
    let mut ledger = Ledger::new();
    owned.release(&mut ledger);
    assert_eq!(ledger.take_calls(), vec![NativeCall::UnregisterClass(0xC001)]);
}

#[test]
fn foreign_release_of_window_class_records_nothing() {
    let mut ledger = Ledger::new();
    let class = ForeignWindowClass::create_managed(3, 0).unwrap();
    class.release(&mut ledger);
    let w: ForeignWindow = Foreign::attached_entity(ForeignWindow::new_from_attached(h(4)).unwrap().data_ref().share());
    w.release(&mut ledger);
    assert_eq!(ledger.pending(), 0);
}

#[test]
fn surface_delete_clears_tracks() {
    let mut ledger = Ledger::new();
    let mut s = LocalDeviceContext::new_compatible_memory_dc(h(120), 0).unwrap();
    let p = pen(&mut ledger, 21);
    s.select_pen(p, h(22), 0, &mut ledger).unwrap();
    s.data_mut().delete(&mut ledger);
    assert_eq!(s.data_ref().original_pen(), None);
    assert_eq!(s.data_ref().original_bitmap(), None);
    assert_eq!(
        ledger.take_calls(),
        vec![
            NativeCall::SelectObject { dc: h(120), object: h(22) },
            NativeCall::DeleteObject(h(21)),
            NativeCall::DeleteDC(h(120)),
        ]
    );
}
