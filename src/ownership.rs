use vstd::prelude::*;

use crate::handle::Handle;
use crate::paint::PaintStructure;

verus! {

/// A release or restore call that the library owes the platform.
///
/// The library records these in a [`Ledger`], in the order in which they must be
/// issued; the program around it performs them.
#[derive(Clone, Copy, PartialEq, Eq, Structural, Debug)]
pub enum NativeCall {
    /// Frees a drawing object (pen, bitmap, brush, font, palette, region).
    DeleteObject(Handle),
    /// Frees a drawing surface that was created for this program.
    DeleteDC(Handle),
    /// Selects `object` into the drawing surface `dc`.
    SelectObject { dc: Handle, object: Handle },
    /// Destroys a window.
    DestroyWindow(Handle),
    /// Destroys a menu.
    DestroyMenu(Handle),
    /// Unregisters the window class with this atom from the program's module.
    UnregisterClass(u16),
    /// Ends the paint cycle of `window`, giving back its drawing surface.
    EndPaint { window: Handle, paint: PaintStructure },
}

/// The mathematical content of a [`Ledger`].
pub struct LedgerView {
    /// For each share group, the number of live entities that hold it.
    pub holders: Seq<u64>,
    /// The native calls owed so far, oldest first.
    pub calls: Seq<NativeCall>,
}

impl LedgerView {
    pub open spec fn with_calls(self, more: Seq<NativeCall>) -> LedgerView {
        LedgerView { holders: self.holders, calls: self.calls + more }
    }

    pub open spec fn with_call(self, c: NativeCall) -> LedgerView {
        LedgerView { holders: self.holders, calls: self.calls.push(c) }
    }
}

/// The context that entities are created and released against: the reference
/// counts of shared resources and the native calls owed so far.
pub struct Ledger {
    holders: Vec<u64>,
    calls: Vec<NativeCall>,
}

impl View for Ledger {
    type V = LedgerView;

    closed spec fn view(&self) -> LedgerView {
        LedgerView { holders: self.holders@, calls: self.calls@ }
    }
}

impl Ledger {
    pub fn new() -> (r: Ledger)
        ensures
            r@.holders == Seq::<u64>::empty(),
            r@.calls == Seq::<NativeCall>::empty(),
    {
        Ledger { holders: Vec::new(), calls: Vec::new() }
    }

    /// Appends a call to those owed.
    pub fn record(&mut self, c: NativeCall)
        ensures
            final(self)@ == old(self)@.with_call(c),
    {
        self.calls.push(c);
    }

    /// Hands out the calls owed so far, oldest first, and forgets them.
    pub fn take_calls(&mut self) -> (r: Vec<NativeCall>)
        ensures
            r@ == old(self)@.calls,
            final(self)@.calls == Seq::<NativeCall>::empty(),
            final(self)@.holders == old(self)@.holders,
    {
        let mut out: Vec<NativeCall> = Vec::new();
        std::mem::swap(&mut out, &mut self.calls);
        out
    }

    /// The number of calls owed so far.
    pub fn pending(&self) -> (r: usize)
        ensures
            r == self@.calls.len(),
    {
        self.calls.len()
    }

    /// The number of live holders of share group `g`, zero for an unknown group.
    pub fn holders_of(&self, g: usize) -> (r: u64)
        ensures
            g < self@.holders.len() ==> r == self@.holders[g as int],
            g >= self@.holders.len() ==> r == 0,
    {
        if g < self.holders.len() {
            self.holders[g]
        } else {
            0
        }
    }

    fn open_group(&mut self) -> (g: usize)
        ensures
            g == old(self)@.holders.len(),
            final(self)@ == (LedgerView { holders: old(self)@.holders.push(1), calls: old(self)@.calls }),
    {
        let g = self.holders.len();
        self.holders.push(1);
        g
    }

    fn add_holder(&mut self, g: usize)
        requires
            g < old(self)@.holders.len(),
            old(self)@.holders[g as int] < u64::MAX,
        ensures
            final(self)@ == (LedgerView {
                holders: old(self)@.holders.update(g as int, (old(self)@.holders[g as int] + 1) as u64),
                calls: old(self)@.calls,
            }),
    {
        let n = self.holders[g];
        self.holders.set(g, n + 1);
    }

    fn remove_holder(&mut self, g: usize) -> (last: bool)
        requires
            g < old(self)@.holders.len(),
            old(self)@.holders[g as int] >= 1,
        ensures
            last == (old(self)@.holders[g as int] == 1),
            final(self)@ == (LedgerView {
                holders: old(self)@.holders.update(g as int, (old(self)@.holders[g as int] - 1) as u64),
                calls: old(self)@.calls,
            }),
    {
        let n = self.holders[g];
        self.holders.set(g, n - 1);
        n == 1
    }
}

/// A value that wraps a raw resource handle and knows how to release it.
pub trait ManagedData: Sized {
    /// Whether the data can be released against the ledger state `l`.
    spec fn valid_in(&self, l: LedgerView) -> bool;

    /// The ledger state after the data released its resource from state `l`.
    spec fn deleted(&self, l: LedgerView) -> LedgerView;

    /// Releases the underlying resource: records the native calls that free it.
    fn delete(&mut self, ledger: &mut Ledger)
        requires
            old(self).valid_in(old(ledger)@),
        ensures
            final(ledger)@ == old(self).deleted(old(ledger)@),
    ;
}

/// Data that can hand out a second logical reference to the same resource.
///
/// Data that must never be shared (a drawing surface) simply does not implement it.
pub trait ShareableData: ManagedData {
    /// The calls that free the resource.
    spec fn release_calls(&self) -> Seq<NativeCall>;

    /// Releasing such data only records its release calls.
    proof fn lemma_deleted(&self, l: LedgerView)
        ensures
            self.valid_in(l),
            self.deleted(l) == l.with_calls(self.release_calls()),
    ;

    /// Another reference to the same resource.
    fn share(&self) -> (r: Self)
        ensures
            r.release_calls() == self.release_calls(),
    ;
}

/// What an entity does with its data when it goes out of scope.
pub trait ManagedStrategy: Sized {
    /// Whether the entity may be released against the ledger state `l`.
    spec fn admits(&self, l: LedgerView) -> bool;

    /// Whether releasing from state `l` deletes the data.
    spec fn deletes(&self, l: LedgerView) -> bool;

    /// The ledger state after the strategy's own bookkeeping, before any deletion.
    spec fn settled(&self, l: LedgerView) -> LedgerView;

    fn clean_up<D: ManagedData>(self, data: &mut D, ledger: &mut Ledger)
        requires
            self.admits(old(ledger)@),
            self.deletes(old(ledger)@) ==> old(data).valid_in(self.settled(old(ledger)@)),
        ensures
            final(ledger)@ == (if self.deletes(old(ledger)@) {
                old(data).deleted(self.settled(old(ledger)@))
            } else {
                self.settled(old(ledger)@)
            }),
    ;
}

/// A resource paired with the rule that decides its release.
pub struct ManagedEntity<D: ManagedData, T: ManagedStrategy> {
    data: D,
    strategy: T,
}

impl<D: ManagedData, T: ManagedStrategy> ManagedEntity<D, T> {
    pub closed spec fn data_view(&self) -> D {
        self.data
    }

    pub closed spec fn strategy_view(&self) -> T {
        self.strategy
    }

    /// Whether the entity can be released against the ledger state `l`.
    pub open spec fn valid_in(&self, l: LedgerView) -> bool {
        &&& self.strategy_view().admits(l)
        &&& self.strategy_view().deletes(l) ==> self.data_view().valid_in(
            self.strategy_view().settled(l),
        )
    }

    /// The ledger state after the entity is released from state `l`.
    pub open spec fn released(&self, l: LedgerView) -> LedgerView {
        if self.strategy_view().deletes(l) {
            self.data_view().deleted(self.strategy_view().settled(l))
        } else {
            self.strategy_view().settled(l)
        }
    }

    pub fn data_ref(&self) -> (r: &D)
        ensures
            *r == self.data_view(),
    {
        &self.data
    }

    pub fn data_mut(&mut self) -> (r: &mut D)
        ensures
            *r == old(self).data_view(),
            final(self).data_view() == *final(r),
            final(self).strategy_view() == old(self).strategy_view(),
    {
        &mut self.data
    }

    /// Ends the entity's scope: runs its strategy's clean-up on its data.
    pub fn release(self, ledger: &mut Ledger)
        requires
            self.valid_in(old(ledger)@),
        ensures
            final(ledger)@ == self.released(old(ledger)@),
    {
        let ManagedEntity { mut data, strategy } = self;
        strategy.clean_up(&mut data, ledger);
    }
}

/// The entity observes a handle that it does not own: release does nothing.
#[derive(Clone, Copy, Debug)]
pub struct Foreign;

impl Foreign {
    pub fn attached_entity<D: ManagedData>(data: D) -> (r: ManagedEntity<D, Foreign>)
        ensures
            r.data_view() == data,
    {
        ManagedEntity { data, strategy: Foreign }
    }

    pub fn cloned_entity<D: ShareableData>(self, data: &D) -> (r: ManagedEntity<D, Foreign>)
        ensures
            r.data_view().release_calls() == data.release_calls(),
    {
        ManagedEntity { data: data.share(), strategy: self }
    }
}

impl ManagedStrategy for Foreign {
    open spec fn admits(&self, l: LedgerView) -> bool {
        true
    }

    open spec fn deletes(&self, l: LedgerView) -> bool {
        false
    }

    open spec fn settled(&self, l: LedgerView) -> LedgerView {
        l
    }

    /// The data is left as it was.
    fn clean_up<D: ManagedData>(self, data: &mut D, ledger: &mut Ledger)
        ensures
            *final(data) == *old(data),
    {
    }
}

impl<D: ShareableData> ManagedEntity<D, Foreign> {
    /// A second wrapper that observes the same handle.
    pub fn clone_foreign(&self) -> (r: ManagedEntity<D, Foreign>)
        ensures
            r.data_view().release_calls() == self.data_view().release_calls(),
    {
        self.strategy.cloned_entity(&self.data)
    }
}

/// The entity is the sole owner of its resource: release always deletes it.
///
/// Such an entity cannot be cloned: ownership cannot fork without becoming shared.
#[derive(Debug)]
pub struct Local;

impl Local {
    pub fn attached_entity<D: ManagedData>(data: D) -> (r: ManagedEntity<D, Local>)
        ensures
            r.data_view() == data,
    {
        ManagedEntity { data, strategy: Local }
    }
}

impl ManagedStrategy for Local {
    open spec fn admits(&self, l: LedgerView) -> bool {
        true
    }

    open spec fn deletes(&self, l: LedgerView) -> bool {
        true
    }

    open spec fn settled(&self, l: LedgerView) -> LedgerView {
        l
    }

    fn clean_up<D: ManagedData>(self, data: &mut D, ledger: &mut Ledger) {
        data.delete(ledger);
    }
}

/// The entity shares its resource with others: release deletes it only when no
/// other holder remains.
#[derive(Debug)]
pub struct LocalRc {
    group: usize,
}

impl LocalRc {
    /// The share group whose holder count this entity takes part in.
    pub closed spec fn group(self) -> int {
        self.group as int
    }

    pub fn attached_entity<D: ManagedData>(data: D, ledger: &mut Ledger) -> (r: ManagedEntity<
        D,
        LocalRc,
    >)
        ensures
            r.data_view() == data,
            r.strategy_view().group() == old(ledger)@.holders.len(),
            final(ledger)@ == (LedgerView {
                holders: old(ledger)@.holders.push(1),
                calls: old(ledger)@.calls,
            }),
    {
        let group = ledger.open_group();
        ManagedEntity { data, strategy: LocalRc { group } }
    }

    pub fn cloned_entity<D: ShareableData>(&self, data: &D, ledger: &mut Ledger) -> (r:
        ManagedEntity<D, LocalRc>)
        requires
            0 <= self.group() < old(ledger)@.holders.len(),
            old(ledger)@.holders[self.group()] < u64::MAX,
        ensures
            r.data_view().release_calls() == data.release_calls(),
            r.strategy_view().group() == self.group(),
            final(ledger)@ == (LedgerView {
                holders: old(ledger)@.holders.update(
                    self.group(),
                    (old(ledger)@.holders[self.group()] + 1) as u64,
                ),
                calls: old(ledger)@.calls,
            }),
    {
        ledger.add_holder(self.group);
        ManagedEntity { data: data.share(), strategy: LocalRc { group: self.group } }
    }
}

impl ManagedStrategy for LocalRc {
    open spec fn admits(&self, l: LedgerView) -> bool {
        0 <= self.group() < l.holders.len() && l.holders[self.group()] >= 1
    }

    open spec fn deletes(&self, l: LedgerView) -> bool {
        l.holders[self.group()] == 1
    }

    open spec fn settled(&self, l: LedgerView) -> LedgerView {
        LedgerView {
            holders: l.holders.update(self.group(), (l.holders[self.group()] - 1) as u64),
            calls: l.calls,
        }
    }

    fn clean_up<D: ManagedData>(self, data: &mut D, ledger: &mut Ledger) {
        let last = ledger.remove_holder(self.group);
        if last {
            data.delete(ledger);
        }
    }
}

impl<D: ShareableData> ManagedEntity<D, LocalRc> {
    /// The share group of this entity.
    pub fn share_group(&self) -> (r: usize)
        ensures
            r as int == self.strategy_view().group(),
    {
        self.strategy.group
    }

    /// Another entity sharing this resource: one more holder in the ledger.
    pub fn clone_shared(&self, ledger: &mut Ledger) -> (r: ManagedEntity<D, LocalRc>)
        requires
            self.valid_in(old(ledger)@),
            old(ledger)@.holders[self.strategy_view().group()] < u64::MAX,
        ensures
            r.data_view().release_calls() == self.data_view().release_calls(),
            r.strategy_view().group() == self.strategy_view().group(),
            final(ledger)@ == (LedgerView {
                holders: old(ledger)@.holders.update(
                    self.strategy_view().group(),
                    (old(ledger)@.holders[self.strategy_view().group()] + 1) as u64,
                ),
                calls: old(ledger)@.calls,
            }),
    {
        self.strategy.cloned_entity(&self.data, ledger)
    }
}

/// Releasing an exclusively owned entity runs its data's deletion exactly once:
/// the ledger afterwards is the data's own deletion applied once to the ledger before,
/// wherever the entity was moved in between.
pub proof fn exclusive_release_deletes_once<D: ManagedData>(
    e: ManagedEntity<D, Local>,
    l: LedgerView,
)
    requires
        e.valid_in(l),
    ensures
        e.released(l) == e.data_view().deleted(l),
        e.data_view().valid_in(l),
{
}

/// Releasing exclusively owned shareable data records exactly its release calls, once.
pub proof fn exclusive_release_records_release_calls<D: ShareableData>(
    e: ManagedEntity<D, Local>,
    l: LedgerView,
)
    ensures
        e.valid_in(l),
        e.released(l) == l.with_calls(e.data_view().release_calls()),
{
    e.data_view().lemma_deleted(l);
}

/// The ledger after the entities of `es` are released in order, starting from `l`.
pub open spec fn release_all<D: ManagedData, T: ManagedStrategy>(
    es: Seq<ManagedEntity<D, T>>,
    l: LedgerView,
) -> LedgerView
    decreases es.len(),
{
    if es.len() == 0 {
        l
    } else {
        es.last().released(release_all(es.drop_last(), l))
    }
}

/// Whether every entity of `es` is a holder of share group `g` whose release calls are `rc`.
pub open spec fn all_share<D: ShareableData>(
    es: Seq<ManagedEntity<D, LocalRc>>,
    g: int,
    rc: Seq<NativeCall>,
) -> bool {
    forall|i: int|
        0 <= i < es.len() ==> {
            &&& (#[trigger] es[i]).strategy_view().group() == g
            &&& es[i].data_view().release_calls() == rc
        }
}

/// Releasing some of the holders of a shared resource lowers its count by as many and
/// records nothing while one holder remains; releasing them all records the release
/// calls once, with the last.
proof fn lemma_release_prefix<D: ShareableData>(
    es: Seq<ManagedEntity<D, LocalRc>>,
    g: int,
    rc: Seq<NativeCall>,
    l: LedgerView,
)
    requires
        all_share(es, g, rc),
        0 <= g < l.holders.len(),
        es.len() <= l.holders[g],
    ensures
        release_all(es, l).holders == l.holders.update(g, (l.holders[g] - es.len()) as u64),
        es.len() < l.holders[g] ==> release_all(es, l).calls == l.calls,
        0 < es.len() == l.holders[g] ==> release_all(es, l).calls == l.calls + rc,
    decreases es.len(),
{
    if es.len() == 0 {
        assert(l.holders.update(g, l.holders[g]) =~= l.holders);
    } else {
        let prefix = es.drop_last();
        assert forall|i: int| 0 <= i < prefix.len() implies {
            &&& (#[trigger] prefix[i]).strategy_view().group() == g
            &&& prefix[i].data_view().release_calls() == rc
        } by {
            assert(prefix[i] == es[i]);
        }
        lemma_release_prefix(prefix, g, rc, l);
        let before = release_all(prefix, l);
        let e = es.last();
        assert(e == es[es.len() - 1]);
        let settled = e.strategy_view().settled(before);
        assert(settled.holders =~= l.holders.update(g, (l.holders[g] - es.len()) as u64));
        if es.len() == 1 {
            assert(prefix.len() == 0);
            assert(before == l);
        }
        if before.holders[g] == 1 {
            e.data_view().lemma_deleted(settled);
        }
    }
}

/// A shared resource with `n + 1` holders (one entity and `n` clones) is deleted once:
/// releasing the holders in any order records nothing until the last, whose release
/// records the release calls exactly once.
pub proof fn shared_release_deletes_once_after_last<D: ShareableData>(
    es: Seq<ManagedEntity<D, LocalRc>>,
    g: int,
    rc: Seq<NativeCall>,
    l: LedgerView,
)
    requires
        all_share(es, g, rc),
        0 <= g < l.holders.len(),
        1 <= es.len() == l.holders[g],
    ensures
        forall|k: int|
            0 <= k < es.len() ==> (#[trigger] release_all(es.take(k), l)).calls == l.calls,
        release_all(es, l).calls == l.calls + rc,
        release_all(es, l).holders[g] == 0,
{
    assert forall|k: int| 0 <= k < es.len() implies (#[trigger] release_all(
        es.take(k),
        l,
    )).calls == l.calls by {
        let p = es.take(k);
        assert forall|i: int| 0 <= i < p.len() implies {
            &&& (#[trigger] p[i]).strategy_view().group() == g
            &&& p[i].data_view().release_calls() == rc
        } by {
            assert(p[i] == es[i]);
        }
        lemma_release_prefix(p, g, rc, l);
    }
    lemma_release_prefix(es, g, rc, l);
}

/// Foreign entities never release what they observe: two of them that reference the
/// same handle, both released, leave the ledger as it was.
pub proof fn foreign_release_records_nothing<D: ManagedData>(
    a: ManagedEntity<D, Foreign>,
    b: ManagedEntity<D, Foreign>,
    l: LedgerView,
)
    ensures
        a.valid_in(l),
        b.valid_in(a.released(l)),
        b.released(a.released(l)) == l,
{
}

} // verus!
