use vstd::prelude::*;

use crate::geometry::Point;
use crate::handle::{Error, Handle};
use crate::wide::{utf16_of, CWideString};
use crate::ownership::{
    Foreign, Ledger, LedgerView, ManagedData, ManagedEntity, ManagedStrategy, NativeCall,
    ShareableData,
};

verus! {

/// The data of a window: its handle.
pub struct WindowInner {
    handle: Handle,
}

impl WindowInner {
    pub closed spec fn spec_handle(self) -> Handle {
        self.handle
    }

    pub fn raw_handle(&self) -> (r: Handle)
        ensures
            r == self.spec_handle(),
    {
        self.handle
    }
}

impl ManagedData for WindowInner {
    open spec fn valid_in(&self, l: LedgerView) -> bool {
        true
    }

    open spec fn deleted(&self, l: LedgerView) -> LedgerView {
        l.with_call(NativeCall::DestroyWindow(self.spec_handle()))
    }

    fn delete(&mut self, ledger: &mut Ledger) {
        ledger.record(NativeCall::DestroyWindow(self.handle));
    }
}

impl ShareableData for WindowInner {
    open spec fn release_calls(&self) -> Seq<NativeCall> {
        seq![NativeCall::DestroyWindow(self.spec_handle())]
    }

    proof fn lemma_deleted(&self, l: LedgerView) {
        assert(l.calls.push(NativeCall::DestroyWindow(self.spec_handle())) =~= l.calls
            + self.release_calls());
    }

    fn share(&self) -> (r: Self) {
        WindowInner { handle: self.handle }
    }
}

pub type AnyWindow<T> = ManagedEntity<WindowInner, T>;

pub type ForeignWindow = AnyWindow<Foreign>;

impl ManagedEntity<WindowInner, Foreign> {
    /// Observes the window `h` without owning it; a null handle names no window.
    pub fn new_from_attached(h: Handle) -> (r: Option<ForeignWindow>)
        ensures
            h.spec_is_null() <==> r is None,
            r is Some ==> r->Some_0.data_view().spec_handle() == h,
    {
        if h.is_null() {
            None
        } else {
            Some(Foreign::attached_entity(WindowInner { handle: h }))
        }
    }
}

impl<T: ManagedStrategy> ManagedEntity<WindowInner, T> {
    pub fn raw_handle(&self) -> (r: Handle)
        ensures
            r == self.data_view().spec_handle(),
    {
        self.data_ref().raw_handle()
    }
}

/// Names a registered window class by the atom that its registration returned.
pub struct WindowClassInner {
    atom: u16,
}

impl WindowClassInner {
    pub closed spec fn spec_atom(self) -> u16 {
        self.atom
    }

    pub fn atom(&self) -> (r: u16)
        ensures
            r == self.spec_atom(),
    {
        self.atom
    }
}

impl ManagedData for WindowClassInner {
    open spec fn valid_in(&self, l: LedgerView) -> bool {
        true
    }

    open spec fn deleted(&self, l: LedgerView) -> LedgerView {
        l.with_call(NativeCall::UnregisterClass(self.spec_atom()))
    }

    fn delete(&mut self, ledger: &mut Ledger) {
        ledger.record(NativeCall::UnregisterClass(self.atom));
    }
}

impl ShareableData for WindowClassInner {
    open spec fn release_calls(&self) -> Seq<NativeCall> {
        seq![NativeCall::UnregisterClass(self.spec_atom())]
    }

    proof fn lemma_deleted(&self, l: LedgerView) {
        assert(l.calls.push(NativeCall::UnregisterClass(self.spec_atom())) =~= l.calls
            + self.release_calls());
    }

    fn share(&self) -> (r: Self) {
        WindowClassInner { atom: self.atom }
    }
}

pub type AnyWindowClass<T> = ManagedEntity<WindowClassInner, T>;

pub type ForeignWindowClass = AnyWindowClass<Foreign>;

impl ManagedEntity<WindowClassInner, Foreign> {
    fn new_with_atom(atom: u16) -> (r: ForeignWindowClass)
        ensures
            r.data_view().spec_atom() == atom,
    {
        Foreign::attached_entity(WindowClassInner { atom })
    }

    /// Wraps the atom that class registration returned; zero is a failure that
    /// carries `last_error`.
    pub fn create_managed(atom: u16, last_error: u32) -> (r: Result<ForeignWindowClass, Error>)
        ensures
            atom == 0 ==> r == Err::<ForeignWindowClass, Error>(Error { code: last_error }),
            atom != 0 ==> r is Ok && r->Ok_0.data_view().spec_atom() == atom,
    {
        if atom == 0 {
            Err(Error::from_code(last_error))
        } else {
            Ok(Self::new_with_atom(atom))
        }
    }
}

/// Whether a window with these styles can have a menu bar: child windows cannot.
pub open spec fn spec_may_have_menu(styles: u32) -> bool {
    styles & WS_CHILD == 0
}

/// The child-window style bit.
pub const WS_CHILD: u32 = 0x4000_0000;

/// The largest interval a timer takes.
pub const USER_TIMER_MAXIMUM: u32 = 0x7FFF_FFFF;

impl<T: ManagedStrategy> ManagedEntity<WindowInner, T> {
    /// Whether the window has a menu, given what asking for its menu returned.
    pub fn has_menu(&self, menu: Handle) -> (r: bool)
        ensures
            r == !menu.spec_is_null(),
    {
        !menu.is_null()
    }

    /// Whether converting a client rectangle to a window rectangle must allow for a
    /// menu bar: never for a child window, else when the window has a menu.
    pub fn menu_bar_counts(styles: u32, menu: Handle) -> (r: bool)
        ensures
            r == (spec_may_have_menu(styles) && !menu.spec_is_null()),
    {
        if styles & WS_CHILD != 0 {
            false
        } else {
            !menu.is_null()
        }
    }
}

/// The interval passed to the platform for a timer of `secs` seconds and
/// `subsec_millis` milliseconds: the seconds count sixty units each, the milliseconds
/// one each, and the sum is held to the platform's maximum.
pub open spec fn spec_timer_interval(secs: u64, subsec_millis: u32) -> u32 {
    let units = secs * 60 + subsec_millis;
    if units > USER_TIMER_MAXIMUM {
        USER_TIMER_MAXIMUM
    } else {
        units as u32
    }
}

pub fn timer_interval(secs: u64, subsec_millis: u32) -> (r: u32)
    ensures
        r == spec_timer_interval(secs, subsec_millis),
{
    let scaled: u64 = if secs > u64::MAX / 60 {
        u64::MAX
    } else {
        secs * 60
    };
    let units = scaled.saturating_add(subsec_millis as u64);
    if units > USER_TIMER_MAXIMUM as u64 {
        USER_TIMER_MAXIMUM
    } else {
        units as u32
    }
}

/// Reads what starting a timer returned: zero is a failure that carries `last_error`.
pub fn timer_outcome(ret: usize, last_error: u32) -> (r: Result<(), Error>)
    ensures
        ret == 0 ==> r == Err::<(), Error>(Error { code: last_error }),
        ret != 0 ==> r is Ok,
{
    if ret == 0 {
        Err(Error::from_code(last_error))
    } else {
        Ok(())
    }
}

/// The flags that resize a window and change nothing else: no activation, no
/// copied bits, no move, no owner reordering, no redraw, no changing notice, no
/// reordering.
pub const RESIZE_ONLY_FLAGS: u32 = 0x0010 | 0x0100 | 0x0002 | 0x0200 | 0x0008 | 0x0400 | 0x0004;

pub const WM_PAINT: u32 = 0x000F;

pub const WM_CLOSE: u32 = 0x0010;

pub const WM_MOUSEFIRST: u32 = 0x0200;

pub const WM_MOUSELAST: u32 = 0x020E;

pub const WM_LBUTTONDOWN: u32 = 0x0201;

pub const WM_LBUTTONUP: u32 = 0x0202;

pub const WM_RBUTTONDOWN: u32 = 0x0204;

pub const WM_RBUTTONUP: u32 = 0x0205;

pub const WM_MBUTTONDOWN: u32 = 0x0207;

pub const WM_MBUTTONUP: u32 = 0x0208;

pub const WM_MOUSEACTIVATE: u32 = 0x0021;

pub const WM_MOUSELEAVE: u32 = 0x02A3;

/// What a window procedure answers for a message.
#[derive(Clone, Copy, PartialEq, Eq, Structural, Debug)]
pub enum WindowProcResponse {
    /// The message was handled; the value is returned to the platform.
    Done(isize),
    /// The message goes to the platform's default procedure.
    Fallback,
}

/// The arguments of a message delivered to a window procedure.
#[derive(Clone, Copy, PartialEq, Eq, Structural, Debug)]
pub struct WindowProcRequestArgs {
    pub msg: u32,
    pub wparam: usize,
    pub lparam: isize,
}

/// The kind of a mouse button event.
#[derive(Clone, Copy, PartialEq, Eq, Structural, Debug)]
pub enum MouseEventArgType {
    LeftButtonDown,
    LeftButtonUp,
    RightButtonDown,
    RightButtonUp,
    MiddleButtonDown,
    MiddleButtonUp,
}

/// The arguments of a mouse message.
#[derive(Clone, Copy, PartialEq, Eq, Structural, Debug)]
pub struct MouseEventArgs(pub WindowProcRequestArgs);

impl MouseEventArgs {
    /// The button event that the message reports, if it reports one.
    pub fn kind(&self) -> (r: Option<MouseEventArgType>)
        ensures
            r == (if self.0.msg == WM_LBUTTONDOWN {
                Some(MouseEventArgType::LeftButtonDown)
            } else if self.0.msg == WM_LBUTTONUP {
                Some(MouseEventArgType::LeftButtonUp)
            } else if self.0.msg == WM_RBUTTONDOWN {
                Some(MouseEventArgType::RightButtonDown)
            } else if self.0.msg == WM_RBUTTONUP {
                Some(MouseEventArgType::RightButtonUp)
            } else if self.0.msg == WM_MBUTTONDOWN {
                Some(MouseEventArgType::MiddleButtonDown)
            } else if self.0.msg == WM_MBUTTONUP {
                Some(MouseEventArgType::MiddleButtonUp)
            } else {
                None
            }),
    {
        let m = self.0.msg;
        if m == WM_LBUTTONDOWN {
            Some(MouseEventArgType::LeftButtonDown)
        } else if m == WM_LBUTTONUP {
            Some(MouseEventArgType::LeftButtonUp)
        } else if m == WM_RBUTTONDOWN {
            Some(MouseEventArgType::RightButtonDown)
        } else if m == WM_RBUTTONUP {
            Some(MouseEventArgType::RightButtonUp)
        } else if m == WM_MBUTTONDOWN {
            Some(MouseEventArgType::MiddleButtonDown)
        } else if m == WM_MBUTTONUP {
            Some(MouseEventArgType::MiddleButtonUp)
        } else {
            None
        }
    }

    /// Where the cursor was, in client coordinates: the low and the high 16 bits of
    /// the message's `lparam`, each read as a signed number. Activation and leave
    /// messages carry no position.
    pub fn cursor_coordinate(&self) -> (r: Option<Point>)
        ensures
            self.0.msg == WM_MOUSEACTIVATE || self.0.msg == WM_MOUSELEAVE ==> r is None,
            !(self.0.msg == WM_MOUSEACTIVATE || self.0.msg == WM_MOUSELEAVE) ==> r == Some(
                Point {
                    x: signed_word(low_word(self.0.lparam as usize)) as i32,
                    y: signed_word(high_word(self.0.lparam as usize)) as i32,
                },
            ),
    {
        let m = self.0.msg;
        if m == WM_MOUSEACTIVATE || m == WM_MOUSELEAVE {
            None
        } else {
            let bits = self.0.lparam as usize;
            let x = signed_word_of(bits % 0x10000);
            let y = signed_word_of((bits / 0x10000) % 0x10000);
            Some(Point { x, y })
        }
    }
}

/// The low 16 bits of `v`.
pub open spec fn low_word(v: usize) -> int {
    v as int % 0x10000
}

/// The 16 bits of `v` above the low 16.
pub open spec fn high_word(v: usize) -> int {
    (v as int / 0x10000) % 0x10000
}

/// A 16-bit word read as a signed number.
pub open spec fn signed_word(w: int) -> int {
    if w >= 0x8000 {
        w - 0x10000
    } else {
        w
    }
}

fn signed_word_of(w: usize) -> (r: i32)
    requires
        w < 0x10000,
    ensures
        r == signed_word(w as int),
{
    if w >= 0x8000 {
        w as i32 - 0x10000
    } else {
        w as i32
    }
}

/// A message delivered to a window procedure, with the answer that routing settles.
///
/// Each message is routed to one handler at most: once a route has taken it, later
/// routes pass it by.
pub struct WindowProcRequest {
    hwnd: Handle,
    args: WindowProcRequestArgs,
    routed: bool,
    response: WindowProcResponse,
}

impl WindowProcRequest {
    pub closed spec fn spec_hwnd(self) -> Handle {
        self.hwnd
    }

    pub closed spec fn spec_args(self) -> WindowProcRequestArgs {
        self.args
    }

    pub fn hwnd(&self) -> (r: Handle)
        ensures
            r == self.spec_hwnd(),
    {
        self.hwnd
    }

    pub fn args(&self) -> (r: WindowProcRequestArgs)
        ensures
            r == self.spec_args(),
    {
        self.args
    }

    pub closed spec fn spec_routed(self) -> bool {
        self.routed
    }

    pub closed spec fn spec_response(self) -> WindowProcResponse {
        self.response
    }

    /// A message that no route has taken yet, answered by the default procedure.
    pub fn new(hwnd: Handle, args: WindowProcRequestArgs) -> (r: WindowProcRequest)
        ensures
            r.spec_hwnd() == hwnd,
            r.spec_args() == args,
            !r.spec_routed(),
            r.spec_response() == WindowProcResponse::Fallback,
    {
        WindowProcRequest { hwnd, args, routed: false, response: WindowProcResponse::Fallback }
    }

    /// Whether the handler of a route that `matches` runs, and on which window: the
    /// first matching route takes the message; it runs when the message names a window.
    fn route(&mut self, matches: bool) -> (r: Option<ForeignWindow>)
        ensures
            final(self).spec_hwnd() == old(self).spec_hwnd(),
            final(self).spec_args() == old(self).spec_args(),
            final(self).spec_response() == old(self).spec_response(),
            final(self).spec_routed() == (old(self).spec_routed() || matches),
            r is Some <==> (matches && !old(self).spec_routed() && !old(self).spec_hwnd().spec_is_null()),
            r is Some ==> r->Some_0.data_view().spec_handle() == old(self).spec_hwnd(),
    {
        if matches && !self.routed {
            self.routed = true;
            ForeignWindow::new_from_attached(self.hwnd)
        } else {
            None
        }
    }

    /// Takes a paint message: the window on which the paint handler runs, if it runs.
    pub fn route_paint(&mut self) -> (r: Option<ForeignWindow>)
        ensures
            final(self).spec_hwnd() == old(self).spec_hwnd(),
            final(self).spec_args() == old(self).spec_args(),
            final(self).spec_response() == old(self).spec_response(),
            final(self).spec_routed() == (old(self).spec_routed() || old(self).spec_args().msg == WM_PAINT),
            r is Some <==> (old(self).spec_args().msg == WM_PAINT && !old(self).spec_routed()
                && !old(self).spec_hwnd().spec_is_null()),
            r is Some ==> r->Some_0.data_view().spec_handle() == old(self).spec_hwnd(),
    {
        let matches = self.args.msg == WM_PAINT;
        self.route(matches)
    }

    /// Takes a close message: the window on which the close handler runs, if it runs.
    pub fn route_close(&mut self) -> (r: Option<ForeignWindow>)
        ensures
            final(self).spec_hwnd() == old(self).spec_hwnd(),
            final(self).spec_args() == old(self).spec_args(),
            final(self).spec_response() == old(self).spec_response(),
            final(self).spec_routed() == (old(self).spec_routed() || old(self).spec_args().msg == WM_CLOSE),
            r is Some <==> (old(self).spec_args().msg == WM_CLOSE && !old(self).spec_routed()
                && !old(self).spec_hwnd().spec_is_null()),
            r is Some ==> r->Some_0.data_view().spec_handle() == old(self).spec_hwnd(),
    {
        let matches = self.args.msg == WM_CLOSE;
        self.route(matches)
    }

    /// Takes a mouse message: the window and the mouse arguments that the mouse
    /// handler runs with, if it runs.
    pub fn route_mouse(&mut self) -> (r: Option<(ForeignWindow, MouseEventArgs)>)
        ensures
            final(self).spec_hwnd() == old(self).spec_hwnd(),
            final(self).spec_args() == old(self).spec_args(),
            final(self).spec_response() == old(self).spec_response(),
            final(self).spec_routed() == (old(self).spec_routed() || (WM_MOUSEFIRST
                <= old(self).spec_args().msg <= WM_MOUSELAST)),
            r is Some <==> (WM_MOUSEFIRST <= old(self).spec_args().msg <= WM_MOUSELAST
                && !old(self).spec_routed() && !old(self).spec_hwnd().spec_is_null()),
            r is Some ==> r->Some_0.0.data_view().spec_handle() == old(self).spec_hwnd()
                && r->Some_0.1 == MouseEventArgs(old(self).spec_args()),
    {
        let matches = self.args.msg >= WM_MOUSEFIRST && self.args.msg <= WM_MOUSELAST;
        match self.route(matches) {
            Some(window) => Some((window, MouseEventArgs(self.args))),
            None => None,
        }
    }

    /// Records how the handler that a route ran came out: a handled message is
    /// answered with zero; otherwise the default procedure answers it.
    pub fn complete(&mut self, handled: bool)
        ensures
            final(self).spec_hwnd() == old(self).spec_hwnd(),
            final(self).spec_args() == old(self).spec_args(),
            final(self).spec_routed() == old(self).spec_routed(),
            handled ==> final(self).spec_response() == WindowProcResponse::Done(0),
            !handled ==> final(self).spec_response() == old(self).spec_response(),
    {
        if handled {
            self.response = WindowProcResponse::Done(0);
        }
    }

    /// The answer settled so far.
    pub fn response(&self) -> (r: WindowProcResponse)
        ensures
            r == self.spec_response(),
    {
        self.response
    }
}

/// A timer notification for a window.
#[derive(Clone, Copy, PartialEq, Eq, Structural, Debug)]
pub struct TimerProcRequest {
    pub hwnd: Handle,
}

impl TimerProcRequest {
    /// The window the timer belongs to, observed; none when the handle is null.
    pub fn window(&self) -> (r: Option<ForeignWindow>)
        ensures
            self.hwnd.spec_is_null() <==> r is None,
            r is Some ==> r->Some_0.data_view().spec_handle() == self.hwnd,
    {
        ForeignWindow::new_from_attached(self.hwnd)
    }
}

/// A cursor that the platform provides, by its resource number.
#[derive(Clone, Copy, PartialEq, Eq, Structural, Debug)]
pub struct SysCursor(pub u16);

impl SysCursor {
    pub fn arrow() -> (r: SysCursor)
        ensures
            r.0 == 32512,
    {
        SysCursor(32512)
    }

    pub fn i_beam() -> (r: SysCursor)
        ensures
            r.0 == 32513,
    {
        SysCursor(32513)
    }

    pub fn wait() -> (r: SysCursor)
        ensures
            r.0 == 32514,
    {
        SysCursor(32514)
    }

    pub fn cross() -> (r: SysCursor)
        ensures
            r.0 == 32515,
    {
        SysCursor(32515)
    }

    pub fn hand() -> (r: SysCursor)
        ensures
            r.0 == 32649,
    {
        SysCursor(32649)
    }
}

/// A color of the platform's scheme, by its index.
#[derive(Clone, Copy, PartialEq, Eq, Structural, Debug)]
pub struct SysColor(pub i32);

/// What a class registration takes as its background: an owned brush, or a system
/// color, which the platform reads as its index plus one.
#[derive(Clone, Copy, PartialEq, Eq, Structural, Debug)]
pub enum OwnedBrushOrSystemColor {
    OwnedBrush(Handle),
    SystemColor(i32),
}

impl OwnedBrushOrSystemColor {
    /// The bits passed to the platform for the background.
    pub fn as_brush_or_int_brush(self) -> (r: usize)
        requires
            self matches OwnedBrushOrSystemColor::SystemColor(c) ==> c < i32::MAX,
        ensures
            r == match self {
                OwnedBrushOrSystemColor::OwnedBrush(b) => b.spec_bits(),
                OwnedBrushOrSystemColor::SystemColor(c) => (c + 1) as usize,
            },
    {
        match self {
            OwnedBrushOrSystemColor::OwnedBrush(b) => b.bits(),
            OwnedBrushOrSystemColor::SystemColor(c) => (c + 1) as usize,
        }
    }
}

/// How a window is first shown: normally.
pub const SW_SHOW: i32 = 5;

/// The show command that the program's windows start with.
pub fn exe_cmd_show() -> (r: i32)
    ensures
        r == SW_SHOW,
{
    SW_SHOW
}

/// The position or size the platform chooses itself.
pub const CW_USEDEFAULT: i32 = i32::MIN;

/// What a window's menu slot holds: a menu, or for a child window its identifier.
#[derive(Clone, Copy, PartialEq, Eq, Structural, Debug)]
pub enum MenuOrChildWindowId {
    Menu(Handle),
    ChildWindowId(u16),
}

impl MenuOrChildWindowId {
    /// The bits passed to the platform in the menu slot.
    pub fn as_either_ptr(self) -> (r: usize)
        ensures
            r == match self {
                MenuOrChildWindowId::Menu(m) => m.spec_bits(),
                MenuOrChildWindowId::ChildWindowId(id) => id as usize,
            },
    {
        match self {
            MenuOrChildWindowId::Menu(m) => m.bits(),
            MenuOrChildWindowId::ChildWindowId(id) => id as usize,
        }
    }
}

/// The attributes of a window class before it is registered, but for its window
/// procedure, which the program hands to the platform itself.
pub struct WindowClassBuilder {
    pub name: CWideString,
    pub style: u32,
    pub class_extra_size: i32,
    pub window_extra_size: i32,
    pub icon: Option<Handle>,
    pub small_icon: Option<Handle>,
    pub background_brush: Option<OwnedBrushOrSystemColor>,
    pub cursor: Option<Handle>,
    pub menu: Option<u16>,
}

/// The plain values of a class registration, as the platform reads them.
#[derive(Clone, Copy, PartialEq, Eq, Structural, Debug)]
pub struct WindowClassArgs {
    pub style: u32,
    pub class_extra_size: i32,
    pub window_extra_size: i32,
    pub icon: usize,
    pub small_icon: usize,
    pub background: usize,
    pub cursor: usize,
    pub menu_resource: usize,
}

pub open spec fn handle_or_zero(h: Option<Handle>) -> usize {
    match h {
        Some(h) => h.spec_bits(),
        None => 0,
    }
}

fn handle_bits_or_zero(h: Option<Handle>) -> (r: usize)
    ensures
        r == handle_or_zero(h),
{
    match h {
        Some(h) => h.bits(),
        None => 0,
    }
}

impl WindowClassBuilder {
    /// A class named `name`, with no style, no extra bytes, no icon, no background,
    /// no cursor and no menu.
    pub fn new(name: &str) -> (r: WindowClassBuilder)
        ensures
            r.name@ == utf16_of(name@).push(0),
            r.style == 0,
            r.class_extra_size == 0,
            r.window_extra_size == 0,
            r.icon is None,
            r.small_icon is None,
            r.background_brush is None,
            r.cursor is None,
            r.menu is None,
    {
        WindowClassBuilder {
            name: CWideString::from_text(name),
            style: 0,
            class_extra_size: 0,
            window_extra_size: 0,
            icon: None,
            small_icon: None,
            background_brush: None,
            cursor: None,
            menu: None,
        }
    }

    /// Paints the background with the system color `syscolor`.
    pub fn syscolor_background_brush(self, syscolor: SysColor) -> (r: WindowClassBuilder)
        ensures
            r.background_brush == Some(OwnedBrushOrSystemColor::SystemColor(syscolor.0)),
            r.name@ == self.name@,
            r.style == self.style,
            r.cursor == self.cursor,
            r.menu == self.menu,
    {
        WindowClassBuilder {
            background_brush: Some(OwnedBrushOrSystemColor::SystemColor(syscolor.0)),
            ..self
        }
    }

    /// Uses the cursor that loading a system cursor returned.
    pub fn syscursor(self, cursor: Handle) -> (r: WindowClassBuilder)
        ensures
            r.cursor == Some(cursor),
            r.name@ == self.name@,
            r.style == self.style,
            r.background_brush == self.background_brush,
            r.menu == self.menu,
    {
        WindowClassBuilder { cursor: Some(cursor), ..self }
    }

    /// The values the registration passes to the platform: absent handles are zero,
    /// a system color background is its index plus one, a menu resource is its number.
    pub fn native_args(&self) -> (r: WindowClassArgs)
        requires
            self.background_brush matches Some(OwnedBrushOrSystemColor::SystemColor(c)) ==> c
                < i32::MAX,
        ensures
            r.style == self.style,
            r.class_extra_size == self.class_extra_size,
            r.window_extra_size == self.window_extra_size,
            r.icon == handle_or_zero(self.icon),
            r.small_icon == handle_or_zero(self.small_icon),
            r.cursor == handle_or_zero(self.cursor),
            r.background == match self.background_brush {
                Some(OwnedBrushOrSystemColor::OwnedBrush(b)) => b.spec_bits(),
                Some(OwnedBrushOrSystemColor::SystemColor(c)) => (c + 1) as usize,
                None => 0usize,
            },
            r.menu_resource == match self.menu {
                Some(id) => id as usize,
                None => 0usize,
            },
    {
        let background = match self.background_brush {
            Some(b) => b.as_brush_or_int_brush(),
            None => 0,
        };
        let menu_resource = match self.menu {
            Some(id) => id as usize,
            None => 0,
        };
        WindowClassArgs {
            style: self.style,
            class_extra_size: self.class_extra_size,
            window_extra_size: self.window_extra_size,
            icon: handle_bits_or_zero(self.icon),
            small_icon: handle_bits_or_zero(self.small_icon),
            background,
            cursor: handle_bits_or_zero(self.cursor),
            menu_resource,
        }
    }

    /// Reads what registering the class returned; see
    /// [`ForeignWindowClass::create_managed`].
    pub fn create_managed(self, atom: u16, last_error: u32) -> (r: Result<
        ForeignWindowClass,
        Error,
    >)
        ensures
            atom == 0 ==> r == Err::<ForeignWindowClass, Error>(Error { code: last_error }),
            atom != 0 ==> r is Ok && r->Ok_0.data_view().spec_atom() == atom,
    {
        ForeignWindowClass::create_managed(atom, last_error)
    }
}

/// The attributes of a window before it is created.
pub struct WindowBuilder {
    pub class: u16,
    pub parent: Option<Handle>,
    pub name: Option<CWideString>,
    pub menu: Option<MenuOrChildWindowId>,
    pub style: u32,
    pub extended_style: u32,
    pub position: Option<(i32, i32)>,
    pub size: Option<(i32, i32)>,
    pub param: usize,
}

impl WindowBuilder {
    /// A window of `window_class`, with no parent, name, menu or style, placed and
    /// sized by the platform.
    pub fn new<T: ManagedStrategy>(window_class: &AnyWindowClass<T>) -> (r: WindowBuilder)
        ensures
            r.class == window_class.data_view().spec_atom(),
            r.parent is None,
            r.name is None,
            r.menu is None,
            r.style == 0,
            r.extended_style == 0,
            r.position is None,
            r.size is None,
            r.param == 0,
    {
        WindowBuilder {
            class: window_class.data_ref().atom(),
            parent: None,
            name: None,
            menu: None,
            style: 0,
            extended_style: 0,
            position: None,
            size: None,
            param: 0,
        }
    }

    pub fn name(self, name: &str) -> (r: WindowBuilder)
        ensures
            r.name is Some,
            r.name->Some_0@ == utf16_of(name@).push(0),
            r.class == self.class,
            r.style == self.style,
    {
        WindowBuilder { name: Some(CWideString::from_text(name)), ..self }
    }

    pub fn style(self, style: u32) -> (r: WindowBuilder)
        ensures
            r.style == style,
            r.class == self.class,
            r.extended_style == self.extended_style,
    {
        WindowBuilder { style, ..self }
    }

    /// Where the window goes: the platform's choice unless a position was given.
    pub fn native_position(&self) -> (r: (i32, i32))
        ensures
            r == match self.position {
                Some(p) => p,
                None => (CW_USEDEFAULT, 0i32),
            },
    {
        match self.position {
            Some(p) => p,
            None => (CW_USEDEFAULT, 0),
        }
    }

    /// How large the window is: the platform's choice unless a size was given.
    pub fn native_size(&self) -> (r: (i32, i32))
        ensures
            r == match self.size {
                Some(p) => p,
                None => (CW_USEDEFAULT, 0i32),
            },
    {
        match self.size {
            Some(p) => p,
            None => (CW_USEDEFAULT, 0),
        }
    }

    /// Reads what creating the window returned: a null handle is a failure that
    /// carries `last_error`; any other window is observed, not owned.
    pub fn create(self, created: Handle, last_error: u32) -> (r: Result<ForeignWindow, Error>)
        ensures
            created.spec_is_null() ==> r == Err::<ForeignWindow, Error>(Error { code: last_error }),
            !created.spec_is_null() ==> r is Ok && r->Ok_0.data_view().spec_handle() == created,
    {
        match ForeignWindow::new_from_attached(created) {
            Some(w) => Ok(w),
            None => Err(Error::from_code(last_error)),
        }
    }
}

} // verus!
