use vstd::prelude::*;

use crate::handle::{spec_acquired, Error, Handle};
use crate::object::{Bitmap, BitmapInner, Pen, PenInner};
use crate::ownership::{
    Ledger, LedgerView, Local, LocalRc, ManagedData, ManagedEntity, NativeCall, ShareableData,
};

verus! {

/// How a drawing surface is given back to the platform.
#[derive(Clone, Copy, PartialEq, Eq, Structural, Debug)]
pub enum DeviceContextKind {
    /// Created for this program: freed with the generic release call.
    Normal,
    /// Lent for a paint cycle: ending the cycle gives it back, so it is never freed here.
    Special,
}

/// What a drawing surface remembers of one kind of selected object.
pub enum SelectionTrack<D: ShareableData> {
    /// Nothing of this kind was selected through the wrapper.
    Untouched,
    /// `original` was selected before the wrapper first selected something of this
    /// kind; `active` is what the wrapper selected last, and owns.
    Tracking { original: Handle, active: ManagedEntity<D, LocalRc> },
}

impl<D: ShareableData> SelectionTrack<D> {
    /// The handle that the track restores, if any.
    pub open spec fn original(self) -> Option<Handle> {
        match self {
            SelectionTrack::Untouched => None,
            SelectionTrack::Tracking { original, .. } => Some(original),
        }
    }

    /// The track after `active` was selected, the platform having reported `previous`
    /// as the selection it replaced: the first capture of the original wins.
    pub open spec fn selected(self, previous: Handle, active: ManagedEntity<D, LocalRc>) -> Self {
        match self {
            SelectionTrack::Untouched => SelectionTrack::Tracking { original: previous, active },
            SelectionTrack::Tracking { original, .. } => SelectionTrack::Tracking {
                original,
                active,
            },
        }
    }

    /// The ledger after the track is restored on surface `dc` from state `l`: the
    /// original is selected back, then the active object is released.
    pub open spec fn restored(self, dc: Handle, l: LedgerView) -> LedgerView {
        match self {
            SelectionTrack::Untouched => l,
            SelectionTrack::Tracking { original, active } => active.released(
                l.with_call(NativeCall::SelectObject { dc, object: original }),
            ),
        }
    }

    /// Whether the track can be restored on surface `dc` from state `l`.
    pub open spec fn restorable(self, dc: Handle, l: LedgerView) -> bool {
        match self {
            SelectionTrack::Untouched => true,
            SelectionTrack::Tracking { original, active } => active.valid_in(
                l.with_call(NativeCall::SelectObject { dc, object: original }),
            ),
        }
    }

    /// The ledger after the active object, if any, is dropped without a restore.
    pub open spec fn replaced(self, l: LedgerView) -> LedgerView {
        match self {
            SelectionTrack::Untouched => l,
            SelectionTrack::Tracking { active, .. } => active.released(l),
        }
    }

    pub open spec fn replaceable(self, l: LedgerView) -> bool {
        match self {
            SelectionTrack::Untouched => true,
            SelectionTrack::Tracking { active, .. } => active.valid_in(l),
        }
    }
}

fn restore_track<D: ShareableData>(dc: Handle, track: SelectionTrack<D>, ledger: &mut Ledger)
    requires
        track.restorable(dc, old(ledger)@),
    ensures
        final(ledger)@ == track.restored(dc, old(ledger)@),
{
    match track {
        SelectionTrack::Untouched => {},
        SelectionTrack::Tracking { original, active } => {
            ledger.record(NativeCall::SelectObject { dc, object: original });
            active.release(ledger);
        },
    }
}

/// Records `active` as the track's active object, after the platform reported that
/// the selection replaced `previous`; the object it replaces is released.
fn select_into_track<D: ShareableData>(
    track: &mut SelectionTrack<D>,
    previous: Handle,
    active: ManagedEntity<D, LocalRc>,
    ledger: &mut Ledger,
)
    requires
        old(track).replaceable(old(ledger)@),
    ensures
        *final(track) == old(track).selected(previous, active),
        final(ledger)@ == old(track).replaced(old(ledger)@),
{
    let mut old_track = SelectionTrack::Untouched;
    std::mem::swap(&mut old_track, track);
    match old_track {
        SelectionTrack::Untouched => {
            *track = SelectionTrack::Tracking { original: previous, active };
        },
        SelectionTrack::Tracking { original, active: replaced } => {
            *track = SelectionTrack::Tracking { original, active };
            replaced.release(ledger);
        },
    }
}

/// The data of a drawing surface: its handle, its kind, and what it selected.
pub struct DeviceContextInner {
    handle: Handle,
    kind: DeviceContextKind,
    pen: SelectionTrack<PenInner>,
    bitmap: SelectionTrack<BitmapInner>,
}

impl DeviceContextInner {
    pub closed spec fn spec_handle(self) -> Handle {
        self.handle
    }

    pub closed spec fn spec_kind(self) -> DeviceContextKind {
        self.kind
    }

    pub closed spec fn pen_track(self) -> SelectionTrack<PenInner> {
        self.pen
    }

    pub closed spec fn bitmap_track(self) -> SelectionTrack<BitmapInner> {
        self.bitmap
    }

    /// Whether both tracks are untouched.
    pub open spec fn is_initial(self) -> bool {
        &&& self.pen_track() is Untouched
        &&& self.bitmap_track() is Untouched
    }

    /// The ledger after the surface is returned to its state before the wrapper
    /// touched it: the pen track is restored, then the bitmap track.
    pub open spec fn restored(self, l: LedgerView) -> LedgerView {
        self.bitmap_track().restored(
            self.spec_handle(),
            self.pen_track().restored(self.spec_handle(), l),
        )
    }

    pub open spec fn restorable(self, l: LedgerView) -> bool {
        &&& self.pen_track().restorable(self.spec_handle(), l)
        &&& self.bitmap_track().restorable(
            self.spec_handle(),
            self.pen_track().restored(self.spec_handle(), l),
        )
    }

    /// A surface that wraps `dc` and has selected nothing yet.
    pub fn new_initial_dc_from_attached(dc: Handle, kind: DeviceContextKind) -> (r: Self)
        ensures
            r.spec_handle() == dc,
            r.spec_kind() == kind,
            r.is_initial(),
    {
        DeviceContextInner {
            handle: dc,
            kind,
            pen: SelectionTrack::Untouched,
            bitmap: SelectionTrack::Untouched,
        }
    }

    pub fn raw_handle(&self) -> (r: Handle)
        ensures
            r == self.spec_handle(),
    {
        self.handle
    }

    pub fn kind(&self) -> (r: DeviceContextKind)
        ensures
            r == self.spec_kind(),
    {
        self.kind
    }

    /// The pen that the surface had before its first pen selection, if it captured one.
    pub fn original_pen(&self) -> (r: Option<Handle>)
        ensures
            r == self.pen_track().original(),
    {
        match &self.pen {
            SelectionTrack::Untouched => None,
            SelectionTrack::Tracking { original, .. } => Some(*original),
        }
    }

    /// The bitmap that the surface had before its first bitmap selection, if it captured one.
    pub fn original_bitmap(&self) -> (r: Option<Handle>)
        ensures
            r == self.bitmap_track().original(),
    {
        match &self.bitmap {
            SelectionTrack::Untouched => None,
            SelectionTrack::Tracking { original, .. } => Some(*original),
        }
    }

    /// Returns the surface to its state before the wrapper touched it: each track that
    /// captured an original selects it back and drops its active object; both tracks
    /// end untouched. A failing reselection is not an error here.
    pub fn restore_to_tracked_state(&mut self, ledger: &mut Ledger)
        requires
            old(self).restorable(old(ledger)@),
        ensures
            final(ledger)@ == old(self).restored(old(ledger)@),
            final(self).is_initial(),
            final(self).spec_handle() == old(self).spec_handle(),
            final(self).spec_kind() == old(self).spec_kind(),
    {
        let mut pen = SelectionTrack::Untouched;
        std::mem::swap(&mut pen, &mut self.pen);
        restore_track(self.handle, pen, ledger);
        let mut bitmap = SelectionTrack::Untouched;
        std::mem::swap(&mut bitmap, &mut self.bitmap);
        restore_track(self.handle, bitmap, ledger);
    }
}

impl ManagedData for DeviceContextInner {
    open spec fn valid_in(&self, l: LedgerView) -> bool {
        self.restorable(l)
    }

    /// The surface is first restored; a normal surface is then freed, a special one
    /// is left to the end of its paint cycle.
    open spec fn deleted(&self, l: LedgerView) -> LedgerView {
        match self.spec_kind() {
            DeviceContextKind::Normal => self.restored(l).with_call(
                NativeCall::DeleteDC(self.spec_handle()),
            ),
            DeviceContextKind::Special => self.restored(l),
        }
    }

    /// Afterwards both tracks are untouched.
    fn delete(&mut self, ledger: &mut Ledger)
        ensures
            final(self).is_initial(),
            final(self).spec_handle() == old(self).spec_handle(),
            final(self).spec_kind() == old(self).spec_kind(),
    {
        self.restore_to_tracked_state(ledger);
        match self.kind {
            DeviceContextKind::Normal => ledger.record(NativeCall::DeleteDC(self.handle)),
            DeviceContextKind::Special => {},
        }
    }
}

/// A drawing surface that this program owns alone.
pub type ScopedDeviceContext = ManagedEntity<DeviceContextInner, Local>;

pub type LocalDeviceContext = ScopedDeviceContext;

impl ManagedEntity<DeviceContextInner, Local> {
    /// Records the outcome of selecting `pen` into the surface, the platform having
    /// returned `previous` and, for a null result, `last_error`.
    ///
    /// On failure the tracks stay as they were, `pen` is released and the error is
    /// returned. On success the first pen selection captures `previous` as the
    /// original; later ones keep it and release the pen they replace.
    pub fn select_pen(&mut self, pen: Pen, previous: Handle, last_error: u32, ledger: &mut Ledger) -> (r:
        Result<(), Error>)
        requires
            previous.spec_is_null() ==> pen.valid_in(old(ledger)@),
            !previous.spec_is_null() ==> old(self).data_view().pen_track().replaceable(old(ledger)@),
        ensures
            spec_acquired(previous, last_error) is Err ==> {
                &&& r == Err::<(), Error>(Error { code: last_error })
                &&& final(self).data_view() == old(self).data_view()
                &&& final(ledger)@ == pen.released(old(ledger)@)
            },
            !previous.spec_is_null() ==> {
                &&& r is Ok
                &&& final(self).data_view().pen_track() == old(self).data_view().pen_track().selected(previous, pen)
                &&& final(self).data_view().bitmap_track() == old(self).data_view().bitmap_track()
                &&& final(self).data_view().spec_handle() == old(self).data_view().spec_handle()
                &&& final(self).data_view().spec_kind() == old(self).data_view().spec_kind()
                &&& final(ledger)@ == old(self).data_view().pen_track().replaced(old(ledger)@)
            },
    {
        if previous.is_null() {
            pen.release(ledger);
            return Err(Error::from_code(last_error));
        }
        let inner = self.data_mut();
        select_into_track(&mut inner.pen, previous, pen, ledger);
        Ok(())
    }

    /// As `select_pen`, for a bitmap.
    pub fn select_bitmap(
        &mut self,
        bitmap: Bitmap,
        previous: Handle,
        last_error: u32,
        ledger: &mut Ledger,
    ) -> (r: Result<(), Error>)
        requires
            previous.spec_is_null() ==> bitmap.valid_in(old(ledger)@),
            !previous.spec_is_null() ==> old(self).data_view().bitmap_track().replaceable(old(ledger)@),
        ensures
            spec_acquired(previous, last_error) is Err ==> {
                &&& r == Err::<(), Error>(Error { code: last_error })
                &&& final(self).data_view() == old(self).data_view()
                &&& final(ledger)@ == bitmap.released(old(ledger)@)
            },
            !previous.spec_is_null() ==> {
                &&& r is Ok
                &&& final(self).data_view().bitmap_track() == old(self).data_view().bitmap_track().selected(
                    previous,
                    bitmap,
                )
                &&& final(self).data_view().pen_track() == old(self).data_view().pen_track()
                &&& final(self).data_view().spec_handle() == old(self).data_view().spec_handle()
                &&& final(self).data_view().spec_kind() == old(self).data_view().spec_kind()
                &&& final(ledger)@ == old(self).data_view().bitmap_track().replaced(old(ledger)@)
            },
    {
        if previous.is_null() {
            bitmap.release(ledger);
            return Err(Error::from_code(last_error));
        }
        let inner = self.data_mut();
        select_into_track(&mut inner.bitmap, previous, bitmap, ledger);
        Ok(())
    }

    /// Returns the surface to its state before the wrapper touched it; see
    /// [`DeviceContextInner::restore_to_tracked_state`].
    pub fn reset_to_initial_state(&mut self, ledger: &mut Ledger)
        requires
            old(self).data_view().restorable(old(ledger)@),
        ensures
            final(ledger)@ == old(self).data_view().restored(old(ledger)@),
            final(self).data_view().is_initial(),
            final(self).data_view().spec_handle() == old(self).data_view().spec_handle(),
            final(self).data_view().spec_kind() == old(self).data_view().spec_kind(),
    {
        self.data_mut().restore_to_tracked_state(ledger);
    }

    /// Wraps the handle that creating a memory surface returned; a null handle is a
    /// failure that carries `last_error`. The surface is normal: releasing it frees it.
    pub fn new_compatible_memory_dc(created: Handle, last_error: u32) -> (r: Result<
        LocalDeviceContext,
        Error,
    >)
        ensures
            created.spec_is_null() ==> r == Err::<LocalDeviceContext, Error>(
                Error { code: last_error },
            ),
            !created.spec_is_null() ==> {
                &&& r is Ok
                &&& r->Ok_0.data_view().spec_handle() == created
                &&& r->Ok_0.data_view().spec_kind() == DeviceContextKind::Normal
                &&& r->Ok_0.data_view().is_initial()
            },
    {
        if created.is_null() {
            Err(Error::from_code(last_error))
        } else {
            Ok(
                Local::attached_entity(
                    DeviceContextInner::new_initial_dc_from_attached(created, DeviceContextKind::Normal),
                ),
            )
        }
    }

    /// As `new_compatible_memory_dc`, for a surface compatible with the screen.
    pub fn new_compatible_memory_dc_for_current_screen(created: Handle, last_error: u32) -> (r:
        Result<LocalDeviceContext, Error>)
        ensures
            created.spec_is_null() ==> r == Err::<LocalDeviceContext, Error>(
                Error { code: last_error },
            ),
            !created.spec_is_null() ==> {
                &&& r is Ok
                &&& r->Ok_0.data_view().spec_handle() == created
                &&& r->Ok_0.data_view().spec_kind() == DeviceContextKind::Normal
                &&& r->Ok_0.data_view().is_initial()
            },
    {
        Self::new_compatible_memory_dc(created, last_error)
    }
}

/// The first pen selection captures the original; a second one keeps it.
pub proof fn select_keeps_first_original<D: ShareableData>(
    track: SelectionTrack<D>,
    p1: Handle,
    a1: ManagedEntity<D, LocalRc>,
    p2: Handle,
    a2: ManagedEntity<D, LocalRc>,
)
    ensures
        track is Untouched ==> track.selected(p1, a1).original() == Some(p1),
        track.selected(p1, a1).selected(p2, a2).original() == track.selected(p1, a1).original(),
{
}

/// Restoring a surface twice in a row records the restoring calls once: after the
/// first, both tracks are untouched and the second records nothing.
pub proof fn restore_is_idempotent(dc: DeviceContextInner, l: LedgerView)
    requires
        dc.is_initial(),
    ensures
        dc.restorable(l),
        dc.restored(l) == l,
{
}

} // verus!
