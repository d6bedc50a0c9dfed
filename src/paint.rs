use vstd::prelude::*;

use crate::device_context::{DeviceContextInner, DeviceContextKind, LocalDeviceContext};
use crate::handle::{Error, Handle};
use crate::ownership::{Ledger, LedgerView, Local, ManagedData, ManagedEntity, ManagedStrategy, NativeCall};
use crate::window::WindowInner;

verus! {

/// What the platform reports when a paint cycle begins, and takes back when it ends.
#[derive(Clone, Copy, PartialEq, Eq, Structural, Debug)]
pub struct PaintStructure {
    /// The drawing surface lent for the cycle; null when the cycle could not begin.
    pub hdc: Handle,
    /// Whether the background must be erased.
    pub erase: bool,
    pub left: i32,
    pub top: i32,
    pub right: i32,
    pub bottom: i32,
}

/// The data of a paint cycle: the window, what began the cycle, and the lent surface.
pub struct PaintDeviceContextInner {
    window: Handle,
    paint_structure: Option<PaintStructure>,
    device_context: LocalDeviceContext,
}

impl PaintDeviceContextInner {
    pub closed spec fn spec_window(self) -> Handle {
        self.window
    }

    pub closed spec fn spec_paint(self) -> Option<PaintStructure> {
        self.paint_structure
    }

    pub closed spec fn spec_surface_entity(self) -> LocalDeviceContext {
        self.device_context
    }

    pub open spec fn spec_surface(self) -> DeviceContextInner {
        self.spec_surface_entity().data_view()
    }

    pub fn raw_handle(&self) -> (r: Handle)
        ensures
            r == self.spec_surface().spec_handle(),
    {
        self.device_context.data_ref().raw_handle()
    }

    /// The surface to draw on during the cycle.
    pub fn surface(&self) -> (r: &LocalDeviceContext)
        ensures
            r.data_view() == self.spec_surface(),
    {
        &self.device_context
    }

    pub fn surface_mut(&mut self) -> (r: &mut LocalDeviceContext)
        ensures
            *r == old(self).spec_surface_entity(),
            final(self).spec_surface_entity() == *final(r),
            final(self).spec_window() == old(self).spec_window(),
            final(self).spec_paint() == old(self).spec_paint(),
    {
        &mut self.device_context
    }
}

impl ManagedData for PaintDeviceContextInner {
    open spec fn valid_in(&self, l: LedgerView) -> bool {
        self.spec_surface().restorable(l)
    }

    /// The surface is restored, then the cycle ends; the surface itself is never freed.
    open spec fn deleted(&self, l: LedgerView) -> LedgerView {
        match self.spec_paint() {
            Some(ps) => self.spec_surface().restored(l).with_call(
                NativeCall::EndPaint { window: self.spec_window(), paint: ps },
            ),
            None => self.spec_surface().restored(l),
        }
    }

    /// Afterwards the surface's tracks are untouched and the cycle's paint record is
    /// consumed.
    fn delete(&mut self, ledger: &mut Ledger)
        ensures
            final(self).spec_surface().is_initial(),
            final(self).spec_surface().spec_handle() == old(self).spec_surface().spec_handle(),
            final(self).spec_surface().spec_kind() == old(self).spec_surface().spec_kind(),
            final(self).spec_window() == old(self).spec_window(),
            final(self).spec_paint() is None,
    {
        self.device_context.data_mut().restore_to_tracked_state(ledger);
        let paint = self.paint_structure;
        self.paint_structure = None;
        match paint {
            Some(ps) => ledger.record(NativeCall::EndPaint { window: self.window, paint: ps }),
            None => {},
        }
    }
}

pub type AnyPaintDeviceContext<T> = ManagedEntity<PaintDeviceContextInner, T>;

pub type LocalPaintDeviceContext = AnyPaintDeviceContext<Local>;

impl<T: ManagedStrategy> ManagedEntity<WindowInner, T> {
    /// Opens a paint cycle for this window from what the platform's paint-begin call
    /// reported; a null surface is a failure that carries `last_error`, and then
    /// nothing is constructed.
    ///
    /// Releasing the cycle untouched ends it with exactly one end-paint call: no
    /// reselection and no release of the surface.
    pub fn do_paint(&self, paint: PaintStructure, last_error: u32) -> (r: Result<
        LocalPaintDeviceContext,
        Error,
    >)
        ensures
            paint.hdc.spec_is_null() ==> r == Err::<LocalPaintDeviceContext, Error>(
                Error { code: last_error },
            ),
            !paint.hdc.spec_is_null() ==> {
                &&& r is Ok
                &&& r->Ok_0.data_view().spec_window() == self.data_view().spec_handle()
                &&& r->Ok_0.data_view().spec_paint() == Some(paint)
                &&& r->Ok_0.data_view().spec_surface().spec_handle() == paint.hdc
                &&& r->Ok_0.data_view().spec_surface().spec_kind() == DeviceContextKind::Special
                &&& r->Ok_0.data_view().spec_surface().is_initial()
                &&& forall|l: LedgerView| #[trigger]
                    r->Ok_0.released(l) == l.with_call(
                        NativeCall::EndPaint { window: self.data_view().spec_handle(), paint },
                    )
            },
    {
        if paint.hdc.is_null() {
            return Err(Error::from_code(last_error));
        }
        let window = self.raw_handle();
        let surface = Local::attached_entity(
            DeviceContextInner::new_initial_dc_from_attached(paint.hdc, DeviceContextKind::Special),
        );
        let data = PaintDeviceContextInner {
            window,
            paint_structure: Some(paint),
            device_context: surface,
        };
        Ok(Local::attached_entity(data))
    }
}

} // verus!
