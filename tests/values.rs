use apiw::color::RGBColor;
use apiw::convert::{saturating_add_isize, saturating_sub_isize};
use apiw::dialog::{
    file_dialog_buffer, file_dialog_outcome, DialogBuilder, DialogResult, MessageBoxBuilder,
    OpenFileDialogBuilder, SaveFileDialogBuilder, MAX_PATH,
};
use apiw::draw::{background_color_outcome, draw_outcome, graphics_mode_outcome, pixel_outcome, BinaryROP, TenaryROP};
use apiw::geometry::{Edges, Point, Rect, Size};
use apiw::handle::{maybe_last_error, ok_or_last_error, zero_or_last_error, CommDlgErr, Error, Handle};
use apiw::menu::{ForeignMenu, MF_BYPOSITION, MF_CHECKED, MF_DISABLED, MF_GRAYED};
use apiw::message::{
    ForeignMessageLoop, Message, MessageBoxResult, MessageFilter, MessageSimpleFilter, PeekMode,
    QuitOrNormalMsg,
};
use apiw::object::{PenBuilder, PenStyle};
use apiw::wide::{CWideString, CWideStringSeq};
use apiw::window::{
    ForeignWindowClass, MenuOrChildWindowId, SysColor, WindowBuilder, WindowClassBuilder, CW_USEDEFAULT,
    timer_interval, timer_outcome, ForeignWindow, MouseEventArgType, MouseEventArgs,
    OwnedBrushOrSystemColor, SysCursor, TimerProcRequest, WindowProcRequest,
    WindowProcRequestArgs, WindowProcResponse, USER_TIMER_MAXIMUM, WM_CLOSE, WM_PAINT,
};
use apiw::{
    booleanize, clamp_i32_to_positive_i32, clamp_isize_to_i32, clamp_isize_to_positive_i32,
    clamp_usize_to_positive_i32, clamp_usize_to_positive_isize, revert_booleanize,
};

fn h(bits: usize) -> Handle {
    Handle::from_bits(bits)
}

fn msg(message: u32) -> Message {
    Message { hwnd: h(1), message, wparam: 0, lparam: 0, time: 0, pt_x: 0, pt_y: 0 }
}

#[test]
fn booleans_round_trip() {
    assert!(booleanize(1));
    assert!(booleanize(-3));
    assert!(!booleanize(0));
    assert_eq!(revert_booleanize(true), 1);
    assert_eq!(revert_booleanize(false), 0);
}

#[test]
fn clamps_hold_values_to_range() {
    assert_eq!(clamp_usize_to_positive_isize(usize::MAX), isize::MAX);
    assert_eq!(clamp_usize_to_positive_isize(42), 42);
    assert_eq!(clamp_isize_to_i32(isize::MIN), i32::MIN);
    assert_eq!(clamp_isize_to_i32(isize::MAX), i32::MAX);
    assert_eq!(clamp_isize_to_i32(-5), -5);
    assert_eq!(clamp_i32_to_positive_i32(-5), 0);
    assert_eq!(clamp_i32_to_positive_i32(5), 5);
    assert_eq!(clamp_usize_to_positive_i32(1 << 40), i32::MAX);
    assert_eq!(clamp_usize_to_positive_i32(7), 7);
    assert_eq!(clamp_isize_to_positive_i32(-1), 0);
    assert_eq!(clamp_isize_to_positive_i32(1 << 40), i32::MAX);
    assert_eq!(clamp_isize_to_positive_i32(9), 9);
    assert_eq!(saturating_add_isize(isize::MAX, 1), isize::MAX);
    assert_eq!(saturating_sub_isize(isize::MIN, 1), isize::MIN);
    assert_eq!(saturating_add_isize(-3, 5), 2);
    assert_eq!(saturating_sub_isize(-3, 5), -8);
}

#[test]
fn acquisition_results() {
    assert_eq!(ok_or_last_error(h(3), 5), Ok(h(3)));
    assert_eq!(ok_or_last_error(Handle::null(), 5), Err(Error::from_code(5)));
    assert_eq!(maybe_last_error(0, 0), Ok(0));
    assert_eq!(maybe_last_error(0, 6), Err(Error::from_code(6)));
    assert_eq!(maybe_last_error(4, 6), Err(Error::from_code(6)));
    assert_eq!(maybe_last_error(1, 5), Err(Error::from_code(5)));
    assert_eq!(maybe_last_error(4, 0), Ok(4));
    assert_eq!(zero_or_last_error(4, 6), Ok(4));
    assert_eq!(zero_or_last_error(0, 6), Err(Error::from_code(6)));
    assert_eq!(zero_or_last_error(0, 0), Ok(0));
    assert!(Handle::null().is_null());
    assert!(!h(1).is_null());
    assert_eq!(h(77).bits(), 77);
    assert_eq!(Error::from_code(9).code(), 9);
}

#[test]
fn points_clamp_and_offset() {
    let p = Point::new(1 << 40, -(1 << 40));
    assert_eq!(p, Point { x: i32::MAX, y: i32::MIN });
    let q = Point::new(3, 4).offset(10, -20);
    assert_eq!((q.x(), q.y()), (13, -16));
    assert_eq!(Point::new(i32::MAX as isize, 0).offset(5, 0).x(), i32::MAX as isize);
    assert_eq!(Point::origin(), Point { x: 0, y: 0 });
}

#[test]
fn sizes_clamp() {
    let s = Size::new(1 << 40, 12);
    assert_eq!(s.cx(), i32::MAX as usize);
    assert_eq!(s.cy(), 12);
}

#[test]
fn rect_corners() {
    let r = Rect::new(Point::new(10, 20), Size::new(5, 7));
    assert_eq!(r.top_left(), Point::new(10, 20));
    assert_eq!(r.bottom_left(), Point::new(10, 27));
    assert_eq!(r.top_right(), Point::new(15, 20));
    assert_eq!(r.bottom_right(), Point::new(15, 27));
    assert_eq!(r.size(), Size::new(5, 7));
    let far = Rect::new(Point::new(i32::MAX as isize - 1, 0), Size::new(10, 10));
    assert_eq!(far.bottom_right(), Point::new(i32::MAX as isize, 10));
}

#[test]
fn rect_deflate_moves_out_and_grows() {
    let r = Rect::new(Point::new(10, 20), Size::new(5, 7)).deflate(3);
    assert_eq!(r.top_left(), Point::new(7, 17));
    assert_eq!(r.size(), Size::new(11, 13));
    let huge = Rect::new(Point::new(0, 0), Size::new(1, 1)).deflate(usize::MAX);
    assert_eq!(huge.top_left(), Point::new(i32::MIN as isize, i32::MIN as isize));
    assert_eq!(huge.size().cx(), i32::MAX as usize);
}

#[test]
fn rect_contains_half_open() {
    let r = Rect::new(Point::new(0, 0), Size::new(10, 5));
    assert!(r.contains(Point::new(0, 0)));
    assert!(r.contains(Point::new(9, 4)));
    assert!(!r.contains(Point::new(10, 4)));
    assert!(!r.contains(Point::new(9, 5)));
    assert!(!r.contains(Point::new(-1, 0)));
    let empty = Rect::new(Point::new(3, 3), Size::new(0, 0));
    assert!(!empty.contains(Point::new(3, 3)));
}

#[test]
fn rect_edges_round_trip() {
    let r = Rect::from_edges(Edges { left: 1, top: 2, right: 11, bottom: 22 });
    assert_eq!(r.top_left(), Point::new(1, 2));
    assert_eq!(r.size(), Size::new(10, 20));
    assert_eq!(r.to_edges(), Edges { left: 1, top: 2, right: 11, bottom: 22 });
    let inverted = Rect::from_edges(Edges { left: 5, top: 5, right: 1, bottom: 1 });
    assert_eq!(inverted.size(), Size::new(0, 0));
}

#[test]
fn colors_pack() {
    assert_eq!(RGBColor::new(0x12, 0x34, 0x56).colorref(), 0x0056_3412);
    assert_eq!(RGBColor::black().colorref(), 0);
    assert_eq!(RGBColor::white().colorref(), 0x00FF_FFFF);
    assert_eq!(RGBColor::from_colorref(0x0056_3412), RGBColor::new(0x12, 0x34, 0x56));
}

#[test]
fn pen_builder_arguments() {
    let b = PenBuilder::new();
    assert_eq!(b.native_args().style, 0);
    assert_eq!(b.native_args().width, 0);
    assert_eq!(b.native_args().color, 0);
    let b = b.style(PenStyle::Dot).width(usize::MAX).color(RGBColor::new(255, 0, 0));
    let args = b.native_args();
    assert_eq!(args.style, 2);
    assert_eq!(args.width, i32::MAX);
    assert_eq!(args.color, 0xFF);
    assert_eq!(PenStyle::InsideFrame.code(), 6);
}

#[test]
fn wide_string_encoding() {
    let s = CWideString::from_text("Ab");
    assert_eq!(s.as_ptr(), &[0x41u16, 0x62, 0][..]);
    assert_eq!(s.len(), 2);
    assert_eq!(s.len_with_null(), 3);
    assert!(!s.is_null());
    let t = CWideString::from_text("\u{1F600}é");
    assert_eq!(t.as_ptr(), &[0xD83Du16, 0xDE00, 0x00E9, 0][..]);
    assert_eq!(t.len(), 3);
    let e = CWideString::from_text("");
    assert_eq!(e.len(), 0);
    assert_eq!(e.len_with_null(), 1);
    let n = CWideString::new();
    assert!(n.is_null());
    assert_eq!(n.len(), 0);
    assert_eq!(n.len_with_null(), 0);
}

#[test]
fn wide_string_seq_walks_each_string() {
    let seq = CWideStringSeq::from_raw_unchecked(vec![0x61, 0x62, 0, 0x63, 0, 0]);
    let mut it = seq.iter_wide_null();
    assert_eq!(it.next(), Some(vec![0x61, 0x62, 0]));
    assert_eq!(it.next(), Some(vec![0x63, 0]));
    assert_eq!(it.next(), Some(vec![0]));
    assert_eq!(it.next(), None);
    assert_eq!(it.next(), None);
    let empty = CWideStringSeq::from_raw_unchecked(vec![]);
    assert_eq!(empty.iter_wide_null().next(), None);
}

#[test]
fn file_dialog_outcomes() {
    let buffer = file_dialog_buffer();
    assert_eq!(buffer.len(), MAX_PATH + 1);
    assert!(buffer.iter().all(|&u| u == 0));
    let mut chosen = buffer.clone();
    chosen[0] = 0x43;
    chosen[1] = 0x3A;
    assert_eq!(file_dialog_outcome(true, chosen, 0), Ok(Some(vec![0x43, 0x3A])));
    assert_eq!(file_dialog_outcome(true, buffer.clone(), 0), Ok(Some(vec![])));
    assert_eq!(file_dialog_outcome(true, vec![], 0), Ok(None));
    assert_eq!(file_dialog_outcome(false, buffer.clone(), 0), Ok(None));
    assert_eq!(file_dialog_outcome(false, buffer, 0xFFFF), Err(CommDlgErr(0xFFFF)));
}

#[test]
fn file_dialog_builders() {
    let window = ForeignWindow::new_from_attached(h(8)).unwrap();
    let open = OpenFileDialogBuilder::new().parent(&window).default_extension("txt").flags(0x1800);
    assert_eq!(open.parent, Some(h(8)));
    assert_eq!(open.flags, 0x1800);
    assert_eq!(open.default_extension.as_ref().unwrap().as_ptr(), &[0x74u16, 0x78, 0x74, 0][..]);
    let r = open.show_dialog_outcome(false, vec![0], 0x3002);
    assert_eq!(r, Err(CommDlgErr(0x3002)));
    let save = SaveFileDialogBuilder::new().flags(0x800);
    assert_eq!(save.parent, None);
    assert_eq!(save.show_dialog_outcome(true, vec![0x61, 0], 0), Ok(Some(vec![0x61])));
}

#[test]
fn dialog_box_outcomes() {
    let d = DialogBuilder::new_from_resource_id(101);
    assert_eq!(d.init_param(), 0);
    let d = d.param(77);
    assert_eq!(d.init_param(), 77);
    assert_eq!(d.invoke_outcome(0, 1813), Err(Error::from_code(1813)));
    assert_eq!(d.invoke_outcome(-1, 6), Err(Error::from_code(6)));
    assert_eq!(d.invoke_outcome(0, 0), Ok(DialogResult(0)));
    assert_eq!(d.invoke_outcome(2, 5), Ok(DialogResult(2)));
    assert_eq!(DialogBuilder::default_dialog_decision(0x0111, 0x0001_0001), Some(1));
    assert_eq!(DialogBuilder::default_dialog_decision(0x0111, 2), Some(2));
    assert_eq!(DialogBuilder::default_dialog_decision(0x0111, 3), None);
    assert_eq!(DialogBuilder::default_dialog_decision(0x0110, 1), None);
}

#[test]
fn message_box_outcomes() {
    let b = MessageBoxBuilder::new().message("hi").title("t");
    assert_eq!(b.message.as_ptr(), &[0x68u16, 0x69, 0][..]);
    assert_eq!(b.title.as_ptr(), &[0x74u16, 0][..]);
    assert_eq!(b.invoke_outcome(6, 0), Ok(MessageBoxResult::YES));
    assert_eq!(b.invoke_outcome(0, 1400), Err(Error::from_code(1400)));
    assert_eq!(MessageBoxResult::from_code(2), Some(MessageBoxResult::CANCEL));
    assert_eq!(MessageBoxResult::from_code(8), None);
    assert_eq!(MessageBoxResult::NO.code(), 7);
}

#[test]
fn message_loop_outcomes() {
    let mut lp = ForeignMessageLoop::for_current_thread();
    let m = msg(0x0100);
    assert_eq!(lp.poll_wait_outcome(-1, m, 1400), Err(Error::from_code(1400)));
    assert_eq!(lp.poll_wait_outcome(0, m, 0), Ok(QuitOrNormalMsg::QuitMsg));
    assert_eq!(lp.poll_wait_outcome(1, m, 0), Ok(QuitOrNormalMsg::NormalMsg(m)));
    assert_eq!(QuitOrNormalMsg::NormalMsg(m).not_quit(), Some(m));
    assert_eq!(QuitOrNormalMsg::QuitMsg.not_quit(), None);
    assert_eq!(lp.peek_outcome(1, m), Some(m));
    assert_eq!(lp.peek_outcome(0, m), None);
    assert_eq!(lp.wait_outcome(0, 5), Err(Error::from_code(5)));
    assert_eq!(lp.wait_outcome(1, 5), Ok(()));
    let mut f = MessageFilter::new();
    assert_eq!(lp.peek_flags(&f, PeekMode::Keep), 0);
    assert_eq!(lp.peek_flags(&f, PeekMode::ConsumeNoYield), 3);
    f.kinds = 0x0040_0000;
    assert_eq!(lp.peek_flags(&f, PeekMode::Consume), 0x0040_0001);
    assert_eq!(lp.peek_flags(&f, PeekMode::KeepNoYield), 0x0040_0002);
    let s = MessageSimpleFilter::new();
    assert!(s.hwnd.is_null());
    assert_eq!((s.min, s.max), (0, 0));
}

#[test]
fn menu_item_calls() {
    let menu = ForeignMenu::new_from_attached(h(12)).unwrap();
    let item = menu.item_by_command(40001);
    assert_eq!(item.id_or_pos, 40001);
    let c = item.set_checked(true);
    assert_eq!((c.menu, c.item, c.flags), (h(12), 40001, MF_CHECKED));
    assert_eq!(item.set_checked(false).flags, 0);
    assert_eq!(item.set_enabled(false).flags, MF_GRAYED);
    assert_eq!(item.set_enabled(true).flags, 0);
    assert_eq!(item.set_enabled_but_never_grayed(false).flags, MF_DISABLED);
    let by_pos = apiw::menu::MenuItem { menu: h(12), by_command: false, id_or_pos: 2 };
    assert_eq!(by_pos.set_checked(true).flags, MF_BYPOSITION | MF_CHECKED);
    assert_eq!(item.call_outcome(u32::MAX, 1401), Err(Error::from_code(1401)));
    assert_eq!(item.call_outcome(0, 1401), Ok(()));
    let window = ForeignWindow::new_from_attached(h(13)).unwrap();
    assert_eq!(window.menu(Handle::null(), 1401).err(), Some(Error::from_code(1401)));
    assert_eq!(window.menu(h(14), 0).unwrap().unwrap().data_ref().raw_handle(), h(14));
    assert!(window.has_menu(h(14)));
    assert!(!window.has_menu(Handle::null()));
    assert!(!ForeignWindow::menu_bar_counts(0x4000_0000, h(14)));
    assert!(ForeignWindow::menu_bar_counts(0x00CF_0000, h(14)));
}

#[test]
fn mouse_arguments() {
    let args = WindowProcRequestArgs { msg: 0x0201, wparam: 0, lparam: 0x0014_FFF6 };
    let m = MouseEventArgs(args);
    assert_eq!(m.kind(), Some(MouseEventArgType::LeftButtonDown));
    assert_eq!(m.cursor_coordinate(), Some(Point { x: -10, y: 20 }));
    let mv = MouseEventArgs(WindowProcRequestArgs { msg: 0x0200, wparam: 0, lparam: -1 });
    assert_eq!(mv.kind(), None);
    assert_eq!(mv.cursor_coordinate(), Some(Point { x: -1, y: -1 }));
    let leave = MouseEventArgs(WindowProcRequestArgs { msg: 0x02A3, wparam: 0, lparam: 5 });
    assert_eq!(leave.cursor_coordinate(), None);
    let up = MouseEventArgs(WindowProcRequestArgs { msg: 0x0208, wparam: 0, lparam: 0 });
    assert_eq!(up.kind(), Some(MouseEventArgType::MiddleButtonUp));
}

#[test]
fn routing_takes_each_message_once() {
    let args = WindowProcRequestArgs { msg: WM_PAINT, wparam: 0, lparam: 0 };
    let mut req = WindowProcRequest::new(h(30), args);
    assert!(req.route_close().is_none());
    let w = req.route_paint().unwrap();
    assert_eq!(w.raw_handle(), h(30));
    assert!(req.route_paint().is_none());
    assert_eq!(req.response(), WindowProcResponse::Fallback);
    req.complete(true);
    assert_eq!(req.response(), WindowProcResponse::Done(0));

    let mut orphan = WindowProcRequest::new(Handle::null(), WindowProcRequestArgs { msg: WM_CLOSE, wparam: 0, lparam: 0 });
    assert!(orphan.route_close().is_none());
    assert_eq!(orphan.response(), WindowProcResponse::Fallback);

    let mut mouse = WindowProcRequest::new(h(31), WindowProcRequestArgs { msg: 0x0204, wparam: 0, lparam: 0 });
    let (win, margs) = mouse.route_mouse().unwrap();
    assert_eq!(win.raw_handle(), h(31));
    assert_eq!(margs.kind(), Some(MouseEventArgType::RightButtonDown));
    mouse.complete(false);
    assert_eq!(mouse.response(), WindowProcResponse::Fallback);
    assert_eq!(mouse.hwnd(), h(31));
    assert_eq!(mouse.args().msg, 0x0204);
}

#[test]
fn timer_intervals() {
    assert_eq!(timer_interval(2, 500), 620);
    assert_eq!(timer_interval(0, 0), 0);
    assert_eq!(timer_interval(u64::MAX, 999), USER_TIMER_MAXIMUM);
    assert_eq!(timer_outcome(0, 1400), Err(Error::from_code(1400)));
    assert_eq!(timer_outcome(3, 0), Ok(()));
    let t = TimerProcRequest { hwnd: h(2) };
    assert_eq!(t.window().unwrap().raw_handle(), h(2));
    assert!(TimerProcRequest { hwnd: Handle::null() }.window().is_none());
}

#[test]
fn cursors_and_brushes() {
    assert_eq!(SysCursor::arrow().0, 32512);
    assert_eq!(SysCursor::hand().0, 32649);
    assert_eq!(OwnedBrushOrSystemColor::SystemColor(15).as_brush_or_int_brush(), 16);
    assert_eq!(OwnedBrushOrSystemColor::OwnedBrush(h(99)).as_brush_or_int_brush(), 99);
    assert_eq!(OwnedBrushOrSystemColor::SystemColor(-1).as_brush_or_int_brush(), 0);
    assert_eq!(OwnedBrushOrSystemColor::SystemColor(-2).as_brush_or_int_brush(), usize::MAX);
}

#[test]
fn drawing_outcomes() {
    assert_eq!(draw_outcome(0, 6), Err(Error::from_code(6)));
    assert_eq!(draw_outcome(1, 6), Ok(()));
    assert_eq!(pixel_outcome(0xFFFF_FFFF), None);
    assert_eq!(pixel_outcome(0x0000_00FF), Some(RGBColor::new(255, 0, 0)));
    assert_eq!(background_color_outcome(0xFFFF_FFFF, 8), Err(Error::from_code(8)));
    assert_eq!(background_color_outcome(0x00FF_FFFF, 8), Ok(RGBColor::white()));
    assert_eq!(graphics_mode_outcome(0, 87), Err(Error::from_code(87)));
    assert_eq!(graphics_mode_outcome(2, 87), Ok(2));
    assert_eq!(BinaryROP::from_table_index(12).0, 13);
    assert_eq!(TenaryROP::srccopy().0, 0x00CC_0020);
    assert_eq!(TenaryROP::whiteness().0, 0x00FF_0062);
    assert_eq!(TenaryROP::from_parts(0x66, 0x0046), TenaryROP::srcinvert());
}

#[test]
fn window_class_builder_arguments() {
    let b = WindowClassBuilder::new("Main").syscolor_background_brush(SysColor(15)).syscursor(h(65539));
    assert_eq!(b.name.as_ptr(), &[0x4Du16, 0x61, 0x69, 0x6E, 0][..]);
    let args = b.native_args();
    assert_eq!(args.background, 16);
    assert_eq!(args.cursor, 65539);
    assert_eq!(args.icon, 0);
    assert_eq!(args.menu_resource, 0);
    assert_eq!(args.style, 0);
    assert!(b.create_managed(0, 1410).is_err());
    let again = WindowClassBuilder::new("Main");
    let class = again.create_managed(0xC00A, 0).unwrap();
    assert_eq!(class.data_ref().atom(), 0xC00A);
}

#[test]
fn window_builder_defaults_and_create() {
    let class = ForeignWindowClass::create_managed(0xC00B, 0).unwrap();
    let b = WindowBuilder::new(&class).name("w").style(0x00CF_0000);
    assert_eq!(b.class, 0xC00B);
    assert_eq!(b.style, 0x00CF_0000);
    assert_eq!(b.native_position(), (CW_USEDEFAULT, 0));
    assert_eq!(b.native_size(), (CW_USEDEFAULT, 0));
    assert_eq!(b.name.as_ref().unwrap().as_ptr(), &[0x77u16, 0][..]);
    let w = b.create(h(0x1234), 0).unwrap();
    assert_eq!(w.raw_handle(), h(0x1234));
    let failed = WindowBuilder::new(&class).create(Handle::null(), 1407);
    assert_eq!(failed.err(), Some(Error::from_code(1407)));
    assert_eq!(MenuOrChildWindowId::ChildWindowId(7).as_either_ptr(), 7);
    assert_eq!(MenuOrChildWindowId::Menu(h(70)).as_either_ptr(), 70);
    assert_eq!(apiw::window::exe_cmd_show(), 5);
    assert_eq!(apiw::draw::GraphicsMode::advanced().0, 2);
    assert_eq!(apiw::draw::GraphicsMode::compatible().0, 1);
}
