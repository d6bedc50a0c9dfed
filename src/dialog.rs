use vstd::prelude::*;

use crate::handle::{CommDlgErr, Error, Handle};
use crate::message::MessageBoxResult;
use crate::ownership::{ManagedEntity, ManagedStrategy};
use crate::wide::{is_wide_string_seq, utf16_of, CWideString, CWideStringSeq};
use crate::window::WindowInner;

verus! {

/// The longest path, in code units, that the file dialogs hand back.
pub const MAX_PATH: usize = 260;

/// A zeroed buffer for a file dialog to write the chosen path into: room for the
/// longest path and its terminating zero.
pub fn file_dialog_buffer() -> (r: Vec<u16>)
    ensures
        r@ == Seq::new((MAX_PATH + 1) as nat, |i: int| 0u16),
{
    let mut buffer: Vec<u16> = Vec::new();
    let mut i: usize = 0;
    while i < MAX_PATH + 1
        invariant
            i <= MAX_PATH + 1,
            buffer@ == Seq::new(i as nat, |k: int| 0u16),
        decreases MAX_PATH + 1 - i,
    {
        buffer.push(0);
        proof {
            assert(buffer@ =~= Seq::new((i + 1) as nat, |k: int| 0u16));
        }
        i = i + 1;
    }
    buffer
}

/// The first string of a buffer of wide strings, without its terminating zero.
pub open spec fn first_wide_string(s: Seq<u16>, w: Seq<u16>) -> bool {
    &&& w.len() < s.len()
    &&& w == s.subrange(0, w.len() as int)
    &&& s[w.len() as int] == 0
    &&& forall|k: int| 0 <= k < w.len() ==> w[k] != 0
}

/// What reading how a file dialog ended gives: the result `r` for a dialog that
/// `succeeded` or not, with `buffer` and `extended_error` as the platform left them.
pub open spec fn spec_file_dialog_outcome(
    succeeded: bool,
    buffer: Seq<u16>,
    extended_error: u32,
    r: Result<Option<Vec<u16>>, CommDlgErr>,
) -> bool {
    &&& succeeded && buffer.len() == 0 ==> r == Ok::<Option<Vec<u16>>, CommDlgErr>(None)
    &&& succeeded && buffer.len() > 0 ==> r is Ok && r->Ok_0 is Some && first_wide_string(
        buffer,
        r->Ok_0->Some_0@,
    )
    &&& !succeeded && extended_error == 0 ==> r == Ok::<Option<Vec<u16>>, CommDlgErr>(None)
    &&& !succeeded && extended_error != 0 ==> r == Err::<Option<Vec<u16>>, CommDlgErr>(
        CommDlgErr(extended_error),
    )
}

/// Reads how a file dialog ended.
///
/// When the dialog succeeded, the path is the first string of `buffer`, and there is
/// none when the buffer is empty. When it failed, a zero extended error code means
/// the user cancelled; any other code is returned as the error.
pub fn file_dialog_outcome(succeeded: bool, buffer: Vec<u16>, extended_error: u32) -> (r: Result<
    Option<Vec<u16>>,
    CommDlgErr,
>)
    requires
        is_wide_string_seq(buffer@),
    ensures
        spec_file_dialog_outcome(succeeded, buffer@, extended_error, r),
{
    if succeeded {
        let ghost data = buffer@;
        let strings = CWideStringSeq::from_raw_unchecked(buffer);
        let mut iter = strings.iter_wide_null();
        match iter.next() {
            Some(mut w) => {
                let ghost full = w@;
                w.pop();
                proof {
                    assert(full =~= data.subrange(0, full.len() as int));
                    assert(w@ =~= full.drop_last());
                    assert(w@ =~= data.subrange(0, w@.len() as int));
                    assert(data[w@.len() as int] == full.last());
                    assert forall|k: int| 0 <= k < w@.len() implies w@[k] != 0 by {
                        assert(w@[k] == full[k]);
                    }
                }
                Ok(Some(w))
            },
            None => Ok(None),
        }
    } else if extended_error == 0 {
        Ok(None)
    } else {
        Err(CommDlgErr(extended_error))
    }
}

/// Asks the user for a file to open.
pub struct OpenFileDialogBuilder {
    pub parent: Option<Handle>,
    pub default_extension: Option<CWideString>,
    pub flags: u32,
}

impl OpenFileDialogBuilder {
    pub fn new() -> (r: OpenFileDialogBuilder)
        ensures
            r.parent is None,
            r.default_extension is None,
            r.flags == 0,
    {
        OpenFileDialogBuilder { parent: None, default_extension: None, flags: 0 }
    }

    pub fn parent<T: ManagedStrategy>(self, parent: &ManagedEntity<WindowInner, T>) -> (r:
        OpenFileDialogBuilder)
        ensures
            r.parent == Some(parent.data_view().spec_handle()),
            r.flags == self.flags,
    {
        OpenFileDialogBuilder { parent: Some(parent.raw_handle()), ..self }
    }

    pub fn default_extension(self, default_ext: &str) -> (r: OpenFileDialogBuilder)
        ensures
            r.default_extension is Some,
            r.default_extension->Some_0@ == utf16_of(default_ext@).push(0),
            r.parent == self.parent,
            r.flags == self.flags,
    {
        OpenFileDialogBuilder {
            default_extension: Some(CWideString::from_text(default_ext)),
            ..self
        }
    }

    pub fn flags(self, flags: u32) -> (r: OpenFileDialogBuilder)
        ensures
            r.flags == flags,
            r.parent == self.parent,
    {
        OpenFileDialogBuilder { flags, ..self }
    }

    /// Reads how the dialog ended; see [`file_dialog_outcome`].
    pub fn show_dialog_outcome(self, succeeded: bool, buffer: Vec<u16>, extended_error: u32) -> (r:
        Result<Option<Vec<u16>>, CommDlgErr>)
        requires
            is_wide_string_seq(buffer@),
        ensures
            spec_file_dialog_outcome(succeeded, buffer@, extended_error, r),
    {
        file_dialog_outcome(succeeded, buffer, extended_error)
    }
}

/// Asks the user for a file to save to.
pub struct SaveFileDialogBuilder {
    pub parent: Option<Handle>,
    pub default_extension: Option<CWideString>,
    pub flags: u32,
}

impl SaveFileDialogBuilder {
    pub fn new() -> (r: SaveFileDialogBuilder)
        ensures
            r.parent is None,
            r.default_extension is None,
            r.flags == 0,
    {
        SaveFileDialogBuilder { parent: None, default_extension: None, flags: 0 }
    }

    pub fn parent<T: ManagedStrategy>(self, parent: &ManagedEntity<WindowInner, T>) -> (r:
        SaveFileDialogBuilder)
        ensures
            r.parent == Some(parent.data_view().spec_handle()),
            r.flags == self.flags,
    {
        SaveFileDialogBuilder { parent: Some(parent.raw_handle()), ..self }
    }

    pub fn default_extension(self, default_ext: &str) -> (r: SaveFileDialogBuilder)
        ensures
            r.default_extension is Some,
            r.default_extension->Some_0@ == utf16_of(default_ext@).push(0),
            r.parent == self.parent,
            r.flags == self.flags,
    {
        SaveFileDialogBuilder {
            default_extension: Some(CWideString::from_text(default_ext)),
            ..self
        }
    }

    pub fn flags(self, flags: u32) -> (r: SaveFileDialogBuilder)
        ensures
            r.flags == flags,
            r.parent == self.parent,
    {
        SaveFileDialogBuilder { flags, ..self }
    }

    /// Reads how the dialog ended; see [`file_dialog_outcome`].
    pub fn show_dialog_outcome(self, succeeded: bool, buffer: Vec<u16>, extended_error: u32) -> (r:
        Result<Option<Vec<u16>>, CommDlgErr>)
        requires
            is_wide_string_seq(buffer@),
        ensures
            spec_file_dialog_outcome(succeeded, buffer@, extended_error, r),
    {
        file_dialog_outcome(succeeded, buffer, extended_error)
    }
}

/// The identifier of the OK button.
pub const IDOK: u16 = 1;

/// The identifier of the Cancel button.
pub const IDCANCEL: u16 = 2;

/// The message a control sends to its dialog.
pub const WM_COMMAND: u32 = 0x0111;

/// Where a dialog's template comes from: a resource of the program, by number.
#[derive(Clone, Copy, PartialEq, Eq, Structural, Debug)]
pub enum DialogTemplateSource {
    ResourceId(u16),
}

/// The value that a modal dialog ended with.
#[derive(Clone, Copy, PartialEq, Eq, Structural, Debug)]
pub struct DialogResult(pub isize);

/// Shows a modal dialog.
#[derive(Clone, Copy, PartialEq, Eq, Structural, Debug)]
pub struct DialogBuilder {
    pub template: DialogTemplateSource,
    pub parent: Option<Handle>,
    pub param: Option<isize>,
}

impl DialogBuilder {
    pub fn new_from_resource_id(id: u16) -> (r: DialogBuilder)
        ensures
            r == (DialogBuilder {
                template: DialogTemplateSource::ResourceId(id),
                parent: None,
                param: None,
            }),
    {
        DialogBuilder { template: DialogTemplateSource::ResourceId(id), parent: None, param: None }
    }

    pub fn parent<T: ManagedStrategy>(self, parent: &ManagedEntity<WindowInner, T>) -> (r:
        DialogBuilder)
        ensures
            r == (DialogBuilder { parent: Some(parent.data_view().spec_handle()), ..self }),
    {
        DialogBuilder { parent: Some(parent.raw_handle()), ..self }
    }

    pub fn param(self, param: isize) -> (r: DialogBuilder)
        ensures
            r == (DialogBuilder { param: Some(param), ..self }),
    {
        DialogBuilder { param: Some(param), ..self }
    }

    /// The value passed to the dialog's procedure when it starts: zero without one.
    pub fn init_param(&self) -> (r: isize)
        ensures
            r == match self.param {
                Some(p) => p,
                None => 0,
            },
    {
        match self.param {
            Some(p) => p,
            None => 0,
        }
    }

    /// Reads what showing the dialog returned: zero or `-1` is a failure when the
    /// platform reported a non-zero `last_error`; otherwise the value is the result.
    pub fn invoke_outcome(&self, ret: isize, last_error: u32) -> (r: Result<DialogResult, Error>)
        ensures
            (ret == 0 || ret == -1) && last_error != 0 ==> r == Err::<DialogResult, Error>(
                Error { code: last_error },
            ),
            !((ret == 0 || ret == -1) && last_error != 0) ==> r == Ok::<DialogResult, Error>(
                DialogResult(ret),
            ),
    {
        if (ret == 0 || ret == -1) && last_error != 0 {
            Err(Error::from_code(last_error))
        } else {
            Ok(DialogResult(ret))
        }
    }

    /// What the default dialog procedure does with a message: an OK or Cancel command
    /// ends the dialog with that button's identifier, which the result names; any
    /// other message is left unhandled.
    pub fn default_dialog_decision(msg: u32, wparam: usize) -> (r: Option<u16>)
        ensures
            r == (if msg == WM_COMMAND && (wparam % 0x10000 == IDOK || wparam % 0x10000
                == IDCANCEL) {
                Some((wparam % 0x10000) as u16)
            } else {
                None
            }),
    {
        if msg == WM_COMMAND {
            let id = (wparam % 0x10000) as u16;
            if id == IDOK || id == IDCANCEL {
                return Some(id);
            }
        }
        None
    }
}

/// Shows a message box.
pub struct MessageBoxBuilder {
    pub parent: Option<Handle>,
    pub message: CWideString,
    pub title: CWideString,
    pub style: u32,
}

impl MessageBoxBuilder {
    /// A message box with no parent, no text and the default style.
    pub fn new() -> (r: MessageBoxBuilder)
        ensures
            r.parent is None,
            r.message@ == Seq::<u16>::empty(),
            r.title@ == Seq::<u16>::empty(),
            r.style == 0,
    {
        MessageBoxBuilder {
            parent: None,
            message: CWideString::new(),
            title: CWideString::new(),
            style: 0,
        }
    }

    pub fn message(self, v: &str) -> (r: MessageBoxBuilder)
        ensures
            r.message@ == utf16_of(v@).push(0),
            r.title@ == self.title@,
            r.parent == self.parent,
            r.style == self.style,
    {
        MessageBoxBuilder { message: CWideString::from_text(v), ..self }
    }

    pub fn title(self, v: &str) -> (r: MessageBoxBuilder)
        ensures
            r.title@ == utf16_of(v@).push(0),
            r.message@ == self.message@,
            r.parent == self.parent,
            r.style == self.style,
    {
        MessageBoxBuilder { title: CWideString::from_text(v), ..self }
    }

    /// Reads what showing the box returned; see [`MessageBoxResult::from_invoke_result`].
    pub fn invoke_outcome(&self, ret: i32, last_error: u32) -> (r: Result<MessageBoxResult, Error>)
        ensures
            1 <= ret <= 7 ==> r is Ok && r->Ok_0.spec_code() == ret,
            !(1 <= ret <= 7) ==> r == Err::<MessageBoxResult, Error>(Error { code: last_error }),
    {
        MessageBoxResult::from_invoke_result(ret, last_error)
    }
}

} // verus!
