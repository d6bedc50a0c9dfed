use vstd::prelude::*;

use crate::handle::{Error, Handle};
use crate::ownership::{
    Foreign, Ledger, LedgerView, ManagedData, ManagedEntity, ManagedStrategy, NativeCall,
    ShareableData,
};
use crate::window::WindowInner;

verus! {

/// Identify the item by its command.
pub const MF_BYCOMMAND: u32 = 0x0000;

/// Identify the item by its position.
pub const MF_BYPOSITION: u32 = 0x0400;

pub const MF_UNCHECKED: u32 = 0x0000;

pub const MF_CHECKED: u32 = 0x0008;

pub const MF_ENABLED: u32 = 0x0000;

pub const MF_GRAYED: u32 = 0x0001;

pub const MF_DISABLED: u32 = 0x0002;

/// The data of a menu: its handle.
pub struct MenuInner {
    handle: Handle,
}

impl MenuInner {
    pub closed spec fn spec_handle(self) -> Handle {
        self.handle
    }

    pub fn raw_handle(&self) -> (r: Handle)
        ensures
            r == self.spec_handle(),
    {
        self.handle
    }
}

impl ManagedData for MenuInner {
    open spec fn valid_in(&self, l: LedgerView) -> bool {
        true
    }

    open spec fn deleted(&self, l: LedgerView) -> LedgerView {
        l.with_call(NativeCall::DestroyMenu(self.spec_handle()))
    }

    fn delete(&mut self, ledger: &mut Ledger) {
        ledger.record(NativeCall::DestroyMenu(self.handle));
    }
}

impl ShareableData for MenuInner {
    open spec fn release_calls(&self) -> Seq<NativeCall> {
        seq![NativeCall::DestroyMenu(self.spec_handle())]
    }

    proof fn lemma_deleted(&self, l: LedgerView) {
        assert(l.calls.push(NativeCall::DestroyMenu(self.spec_handle())) =~= l.calls
            + self.release_calls());
    }

    fn share(&self) -> (r: Self) {
        MenuInner { handle: self.handle }
    }
}

pub type AnyMenu<T> = ManagedEntity<MenuInner, T>;

pub type ForeignMenu = AnyMenu<Foreign>;

impl ManagedEntity<MenuInner, Foreign> {
    /// Observes the menu `h` without owning it; a null handle names no menu.
    pub fn new_from_attached(h: Handle) -> (r: Option<ForeignMenu>)
        ensures
            h.spec_is_null() <==> r is None,
            r is Some ==> r->Some_0.data_view().spec_handle() == h,
    {
        if h.is_null() {
            None
        } else {
            Some(Foreign::attached_entity(MenuInner { handle: h }))
        }
    }
}

impl<T: ManagedStrategy> ManagedEntity<MenuInner, T> {
    /// The item of this menu with command `command`.
    pub fn item_by_command(&self, command: u16) -> (r: MenuItem)
        ensures
            r.menu == self.data_view().spec_handle(),
            r.by_command,
            r.id_or_pos == command as u32,
    {
        MenuItem { menu: self.data_ref().raw_handle(), by_command: true, id_or_pos: command as u32 }
    }
}

impl<T: ManagedStrategy> ManagedEntity<WindowInner, T> {
    /// Reads what asking for the window's menu returned: a null handle is a failure
    /// that carries `last_error`, any other handle is observed, not owned.
    pub fn menu(&self, menu: Handle, last_error: u32) -> (r: Result<Option<ForeignMenu>, Error>)
        ensures
            menu.spec_is_null() ==> r == Err::<Option<ForeignMenu>, Error>(
                Error { code: last_error },
            ),
            !menu.spec_is_null() ==> r is Ok && r->Ok_0 is Some
                && r->Ok_0->Some_0.data_view().spec_handle() == menu,
    {
        match crate::handle::ok_or_last_error(menu, last_error) {
            Ok(h) => Ok(ForeignMenu::new_from_attached(h)),
            Err(e) => Err(e),
        }
    }
}

/// One item of a menu, by command or by position.
#[derive(Clone, Copy, PartialEq, Eq, Structural, Debug)]
pub struct MenuItem {
    pub menu: Handle,
    pub by_command: bool,
    pub id_or_pos: u32,
}

/// A call that changes the state of a menu item.
#[derive(Clone, Copy, PartialEq, Eq, Structural, Debug)]
pub struct MenuItemCall {
    pub menu: Handle,
    pub item: u32,
    pub flags: u32,
}

impl MenuItem {
    pub open spec fn spec_addressing(self) -> u32 {
        if self.by_command {
            MF_BYCOMMAND
        } else {
            MF_BYPOSITION
        }
    }

    fn addressing(&self) -> (r: u32)
        ensures
            r == self.spec_addressing(),
    {
        if self.by_command {
            MF_BYCOMMAND
        } else {
            MF_BYPOSITION
        }
    }

    /// The call that checks or unchecks the item.
    pub fn set_checked(&self, checked: bool) -> (r: MenuItemCall)
        ensures
            r.menu == self.menu,
            r.item == self.id_or_pos,
            r.flags == self.spec_addressing() | (if checked {
                MF_CHECKED
            } else {
                MF_UNCHECKED
            }),
    {
        let state = if checked {
            MF_CHECKED
        } else {
            MF_UNCHECKED
        };
        MenuItemCall { menu: self.menu, item: self.id_or_pos, flags: self.addressing() | state }
    }

    /// The call that enables the item, or disables and grays it.
    pub fn set_enabled(&self, enabled: bool) -> (r: MenuItemCall)
        ensures
            r.menu == self.menu,
            r.item == self.id_or_pos,
            r.flags == self.spec_addressing() | (if enabled {
                MF_ENABLED
            } else {
                MF_GRAYED
            }),
    {
        let state = if enabled {
            MF_ENABLED
        } else {
            MF_GRAYED
        };
        MenuItemCall { menu: self.menu, item: self.id_or_pos, flags: self.addressing() | state }
    }

    /// The call that enables the item, or disables it without graying it.
    pub fn set_enabled_but_never_grayed(&self, enabled: bool) -> (r: MenuItemCall)
        ensures
            r.menu == self.menu,
            r.item == self.id_or_pos,
            r.flags == self.spec_addressing() | (if enabled {
                MF_ENABLED
            } else {
                MF_DISABLED
            }),
    {
        let state = if enabled {
            MF_ENABLED
        } else {
            MF_DISABLED
        };
        MenuItemCall { menu: self.menu, item: self.id_or_pos, flags: self.addressing() | state }
    }

    /// Reads what a menu item call returned: all bits set means the item does not
    /// exist, a failure that carries `last_error`.
    pub fn call_outcome(&self, previous: u32, last_error: u32) -> (r: Result<(), Error>)
        ensures
            previous == u32::MAX ==> r == Err::<(), Error>(Error { code: last_error }),
            previous != u32::MAX ==> r is Ok,
    {
        if previous == u32::MAX {
            Err(Error::from_code(last_error))
        } else {
            Ok(())
        }
    }
}

} // verus!
