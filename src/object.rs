use vstd::prelude::*;

use crate::color::{spec_colorref, RGBColor};
use crate::convert::{clamp, clamp_usize_to_positive_i32};
use crate::handle::{spec_acquired, Error, Handle};
use crate::ownership::{
    Ledger, LedgerView, LocalRc, ManagedData, ManagedEntity, NativeCall, ShareableData,
};

verus! {

/// The data of a pen: its handle.
pub struct PenInner {
    handle: Handle,
}

impl PenInner {
    pub closed spec fn spec_handle(self) -> Handle {
        self.handle
    }

    pub fn raw_handle(&self) -> (r: Handle)
        ensures
            r == self.spec_handle(),
    {
        self.handle
    }
}

impl ManagedData for PenInner {
    open spec fn valid_in(&self, l: LedgerView) -> bool {
        true
    }

    open spec fn deleted(&self, l: LedgerView) -> LedgerView {
        l.with_call(NativeCall::DeleteObject(self.spec_handle()))
    }

    fn delete(&mut self, ledger: &mut Ledger) {
        ledger.record(NativeCall::DeleteObject(self.handle));
    }
}

impl ShareableData for PenInner {
    open spec fn release_calls(&self) -> Seq<NativeCall> {
        seq![NativeCall::DeleteObject(self.spec_handle())]
    }

    proof fn lemma_deleted(&self, l: LedgerView) {
        assert(l.calls.push(NativeCall::DeleteObject(self.spec_handle())) =~= l.calls
            + self.release_calls());
    }

    fn share(&self) -> (r: Self) {
        PenInner { handle: self.handle }
    }
}

/// A pen, shared by every surface it is selected into.
pub type Pen = ManagedEntity<PenInner, LocalRc>;

/// How a pen draws its lines.
#[derive(Clone, Copy, PartialEq, Eq, Structural, Debug)]
pub enum PenStyle {
    Solid,
    Dash,
    Dot,
    DashDot,
    DashDotDot,
    Null,
    InsideFrame,
}

impl PenStyle {
    pub open spec fn spec_code(self) -> i32 {
        match self {
                PenStyle::Solid => 0i32,
                PenStyle::Dash => 1i32,
                PenStyle::Dot => 2i32,
                PenStyle::DashDot => 3i32,
                PenStyle::DashDotDot => 4i32,
                PenStyle::Null => 5i32,
                PenStyle::InsideFrame => 6i32,
        }
    }

    /// The code that the platform takes for the style.
    pub fn code(&self) -> (r: i32)
        ensures
            r == self.spec_code(),
    {
        match self {
            PenStyle::Solid => 0,
            PenStyle::Dash => 1,
            PenStyle::Dot => 2,
            PenStyle::DashDot => 3,
            PenStyle::DashDotDot => 4,
            PenStyle::Null => 5,
            PenStyle::InsideFrame => 6,
        }
    }
}

/// The arguments that the platform's pen constructor takes: style, width, color.
#[derive(Clone, Copy, PartialEq, Eq, Structural, Debug)]
pub struct PenArgs {
    pub style: i32,
    pub width: i32,
    pub color: u32,
}

/// Collects the attributes of a pen before it is created.
#[derive(Clone, Copy, Debug)]
pub struct PenBuilder {
    pub style: PenStyle,
    pub width: usize,
    pub color: RGBColor,
}

impl PenBuilder {
    /// A solid black pen of the thinnest width.
    pub fn new() -> (r: PenBuilder)
        ensures
            r.style == PenStyle::Solid,
            r.width == 0,
            r.color == RGBColor::spec_black(),
    {
        PenBuilder { style: PenStyle::Solid, width: 0, color: RGBColor::black() }
    }

    pub fn style(self, style: PenStyle) -> (r: PenBuilder)
        ensures
            r == (PenBuilder { style, ..self }),
    {
        PenBuilder { style, ..self }
    }

    pub fn width(self, width: usize) -> (r: PenBuilder)
        ensures
            r == (PenBuilder { width, ..self }),
    {
        PenBuilder { width, ..self }
    }

    pub fn color(self, color: RGBColor) -> (r: PenBuilder)
        ensures
            r == (PenBuilder { color, ..self }),
    {
        PenBuilder { color, ..self }
    }

    /// What the platform's pen constructor is called with: the width is clamped into
    /// the platform's non-negative range.
    pub fn native_args(&self) -> (r: PenArgs)
        ensures
            r.style == self.style.spec_code(),
            r.width as int == clamp(self.width as int, 0, i32::MAX as int),
            r.color == spec_colorref(self.color.red, self.color.green, self.color.blue),
    {
        PenArgs {
            style: self.style.code(),
            width: clamp_usize_to_positive_i32(self.width),
            color: self.color.colorref(),
        }
    }

    /// Wraps the handle that the pen constructor returned as a shared pen; a null
    /// handle is a failure that carries `last_error`, and then nothing is recorded.
    pub fn create(self, created: Handle, last_error: u32, ledger: &mut Ledger) -> (r: Result<
        Pen,
        Error,
    >)
        ensures
            spec_acquired(created, last_error) is Err ==> {
                &&& r == Err::<Pen, Error>(Error { code: last_error })
                &&& final(ledger)@ == old(ledger)@
            },
            !created.spec_is_null() ==> {
                &&& r is Ok
                &&& r->Ok_0.data_view().spec_handle() == created
                &&& r->Ok_0.strategy_view().group() == old(ledger)@.holders.len()
                &&& final(ledger)@ == (LedgerView {
                    holders: old(ledger)@.holders.push(1),
                    calls: old(ledger)@.calls,
                })
            },
    {
        if created.is_null() {
            Err(Error::from_code(last_error))
        } else {
            Ok(LocalRc::attached_entity(PenInner { handle: created }, ledger))
        }
    }
}

/// The data of a bitmap: its handle.
pub struct BitmapInner {
    handle: Handle,
}

impl BitmapInner {
    pub closed spec fn spec_handle(self) -> Handle {
        self.handle
    }

    pub fn raw_handle(&self) -> (r: Handle)
        ensures
            r == self.spec_handle(),
    {
        self.handle
    }
}

impl ManagedData for BitmapInner {
    open spec fn valid_in(&self, l: LedgerView) -> bool {
        true
    }

    open spec fn deleted(&self, l: LedgerView) -> LedgerView {
        l.with_call(NativeCall::DeleteObject(self.spec_handle()))
    }

    fn delete(&mut self, ledger: &mut Ledger) {
        ledger.record(NativeCall::DeleteObject(self.handle));
    }
}

impl ShareableData for BitmapInner {
    open spec fn release_calls(&self) -> Seq<NativeCall> {
        seq![NativeCall::DeleteObject(self.spec_handle())]
    }

    proof fn lemma_deleted(&self, l: LedgerView) {
        assert(l.calls.push(NativeCall::DeleteObject(self.spec_handle())) =~= l.calls
            + self.release_calls());
    }

    fn share(&self) -> (r: Self) {
        BitmapInner { handle: self.handle }
    }
}

/// A bitmap, shared by every surface it is selected into.
pub type Bitmap = ManagedEntity<BitmapInner, LocalRc>;

impl ManagedEntity<BitmapInner, LocalRc> {
    /// Wraps the handle that loading the bitmap resource `id` returned as a shared bitmap;
    /// a null handle is a failure that carries `last_error`, and then nothing is recorded.
    pub fn load_from_resource_id(id: u16, loaded: Handle, last_error: u32, ledger: &mut Ledger) -> (r:
        Result<Bitmap, Error>)
        ensures
            loaded.spec_is_null() ==> {
                &&& r == Err::<Bitmap, Error>(Error { code: last_error })
                &&& final(ledger)@ == old(ledger)@
            },
            !loaded.spec_is_null() ==> {
                &&& r is Ok
                &&& r->Ok_0.data_view().spec_handle() == loaded
                &&& r->Ok_0.strategy_view().group() == old(ledger)@.holders.len()
                &&& final(ledger)@ == (LedgerView {
                    holders: old(ledger)@.holders.push(1),
                    calls: old(ledger)@.calls,
                })
            },
    {
        if loaded.is_null() {
            Err(Error::from_code(last_error))
        } else {
            Ok(LocalRc::attached_entity(BitmapInner { handle: loaded }, ledger))
        }
    }
}

} // verus!
