use vstd::prelude::*;

use crate::handle::{Error, Handle};

verus! {

/// A message taken from the thread's queue.
#[derive(Clone, Copy, PartialEq, Eq, Structural, Debug)]
pub struct Message {
    pub hwnd: Handle,
    pub message: u32,
    pub wparam: usize,
    pub lparam: isize,
    pub time: u32,
    pub pt_x: i32,
    pub pt_y: i32,
}

/// The value a window procedure returned for a message.
#[derive(Clone, Copy, PartialEq, Eq, Structural, Debug)]
pub struct MessageResult(pub isize);

/// What a blocking wait for the next message yielded.
#[derive(Clone, Copy, PartialEq, Eq, Structural, Debug)]
pub enum QuitOrNormalMsg {
    QuitMsg,
    NormalMsg(Message),
}

impl QuitOrNormalMsg {
    /// The message, unless the queue asked the thread to quit.
    pub fn not_quit(self) -> (r: Option<Message>)
        ensures
            r == match self {
                QuitOrNormalMsg::QuitMsg => None,
                QuitOrNormalMsg::NormalMsg(m) => Some(m),
            },
    {
        match self {
            QuitOrNormalMsg::QuitMsg => None,
            QuitOrNormalMsg::NormalMsg(m) => Some(m),
        }
    }
}

/// Which messages a blocking wait takes: those of `hwnd` (any window when null)
/// whose number lies in `min..=max` (any number when both are zero).
#[derive(Clone, Copy, PartialEq, Eq, Structural, Debug)]
pub struct MessageSimpleFilter {
    pub hwnd: Handle,
    pub min: u32,
    pub max: u32,
}

impl MessageSimpleFilter {
    /// The filter that takes every message.
    pub fn new() -> (r: MessageSimpleFilter)
        ensures
            r.hwnd.spec_is_null(),
            r.min == 0,
            r.max == 0,
    {
        MessageSimpleFilter { hwnd: Handle::null(), min: 0, max: 0 }
    }
}

/// As [`MessageSimpleFilter`], with the kinds of messages that a peek looks at.
#[derive(Clone, Copy, PartialEq, Eq, Structural, Debug)]
pub struct MessageFilter {
    pub hwnd: Handle,
    pub min: u32,
    pub max: u32,
    pub kinds: u32,
}

impl MessageFilter {
    /// The filter that looks at every message.
    pub fn new() -> (r: MessageFilter)
        ensures
            r.hwnd.spec_is_null(),
            r.min == 0,
            r.max == 0,
            r.kinds == 0,
    {
        MessageFilter { hwnd: Handle::null(), min: 0, max: 0, kinds: 0 }
    }
}

/// Leave the message in the queue.
pub const PM_NOREMOVE: u32 = 0x0000;

/// Take the message out of the queue.
pub const PM_REMOVE: u32 = 0x0001;

/// Do not let other threads run while peeking.
pub const PM_NOYIELD: u32 = 0x0002;

/// How a peek treats the queue.
#[derive(Clone, Copy, PartialEq, Eq, Structural, Debug)]
pub enum PeekMode {
    /// Look at the next message and leave it.
    Keep,
    /// Take the next message out.
    Consume,
    /// As `Keep`, without yielding.
    KeepNoYield,
    /// As `Consume`, without yielding.
    ConsumeNoYield,
}

impl PeekMode {
    pub open spec fn spec_flags(self) -> u32 {
        match self {
            PeekMode::Keep => PM_NOREMOVE,
            PeekMode::Consume => PM_REMOVE,
            PeekMode::KeepNoYield => PM_NOREMOVE | PM_NOYIELD,
            PeekMode::ConsumeNoYield => PM_REMOVE | PM_NOYIELD,
        }
    }
}

/// The cursor position when the last message was posted, packed as the platform
/// reports it.
#[derive(Clone, Copy, PartialEq, Eq, Structural, Debug)]
pub struct MessagePos(pub u32);

/// The time at which the last message was posted.
#[derive(Clone, Copy, PartialEq, Eq, Structural, Debug)]
pub struct MessageTime(pub i32);

/// The message queue of the current thread, which the platform owns.
#[derive(Debug)]
pub struct ForeignMessageLoop;

impl ForeignMessageLoop {
    pub fn for_current_thread() -> (r: ForeignMessageLoop) {
        ForeignMessageLoop
    }

    /// Reads what a blocking wait returned: `-1` is a failure that carries
    /// `last_error`, zero asks the thread to quit, anything else delivered `msg`.
    pub fn poll_wait_outcome(&mut self, ret: i32, msg: Message, last_error: u32) -> (r: Result<
        QuitOrNormalMsg,
        Error,
    >)
        ensures
            ret == -1 ==> r == Err::<QuitOrNormalMsg, Error>(Error { code: last_error }),
            ret == 0 ==> r == Ok::<QuitOrNormalMsg, Error>(QuitOrNormalMsg::QuitMsg),
            ret != 0 && ret != -1 ==> r == Ok::<QuitOrNormalMsg, Error>(
                QuitOrNormalMsg::NormalMsg(msg),
            ),
    {
        if ret == -1 {
            Err(Error::from_code(last_error))
        } else if ret == 0 {
            Ok(QuitOrNormalMsg::QuitMsg)
        } else {
            Ok(QuitOrNormalMsg::NormalMsg(msg))
        }
    }

    /// The flags that a peek in `mode` through `filter` passes to the platform: the
    /// filter's kinds together with the mode's own flags.
    pub fn peek_flags(&self, filter: &MessageFilter, mode: PeekMode) -> (r: u32)
        ensures
            r == filter.kinds | mode.spec_flags(),
    {
        let extra = match mode {
            PeekMode::Keep => PM_NOREMOVE,
            PeekMode::Consume => PM_REMOVE,
            PeekMode::KeepNoYield => PM_NOREMOVE | PM_NOYIELD,
            PeekMode::ConsumeNoYield => PM_REMOVE | PM_NOYIELD,
        };
        filter.kinds | extra
    }

    /// Reads what a peek returned: a non-zero result delivered `msg`.
    pub fn peek_outcome(&mut self, found: i32, msg: Message) -> (r: Option<Message>)
        ensures
            found != 0 ==> r == Some(msg),
            found == 0 ==> r is None,
    {
        if found != 0 {
            Some(msg)
        } else {
            None
        }
    }

    /// Reads what waiting for the next incoming message returned: zero is a failure
    /// that carries `last_error`.
    pub fn wait_outcome(&mut self, ret: i32, last_error: u32) -> (r: Result<(), Error>)
        ensures
            ret == 0 ==> r == Err::<(), Error>(Error { code: last_error }),
            ret != 0 ==> r is Ok,
    {
        if ret != 0 {
            Ok(())
        } else {
            Err(Error::from_code(last_error))
        }
    }
}

/// The button a message box was closed with.
#[derive(Clone, Copy, PartialEq, Eq, Structural, Debug)]
pub enum MessageBoxResult {
    OK,
    YES,
    NO,
    ABORT,
    RETRY,
    IGNORE,
    CANCEL,
}

impl MessageBoxResult {
    pub open spec fn spec_code(self) -> i32 {
        match self {
            MessageBoxResult::OK => 1,
            MessageBoxResult::CANCEL => 2,
            MessageBoxResult::ABORT => 3,
            MessageBoxResult::RETRY => 4,
            MessageBoxResult::IGNORE => 5,
            MessageBoxResult::YES => 6,
            MessageBoxResult::NO => 7,
        }
    }

    /// The code that the platform reports for the button.
    pub fn code(&self) -> (r: i32)
        ensures
            r == self.spec_code(),
    {
        match self {
            MessageBoxResult::OK => 1,
            MessageBoxResult::CANCEL => 2,
            MessageBoxResult::ABORT => 3,
            MessageBoxResult::RETRY => 4,
            MessageBoxResult::IGNORE => 5,
            MessageBoxResult::YES => 6,
            MessageBoxResult::NO => 7,
        }
    }

    /// The button with code `v`, if any.
    pub fn from_code(v: i32) -> (r: Option<MessageBoxResult>)
        ensures
            r is Some <==> 1 <= v <= 7,
            r is Some ==> r->Some_0.spec_code() == v,
    {
        match v {
            1 => Some(MessageBoxResult::OK),
            2 => Some(MessageBoxResult::CANCEL),
            3 => Some(MessageBoxResult::ABORT),
            4 => Some(MessageBoxResult::RETRY),
            5 => Some(MessageBoxResult::IGNORE),
            6 => Some(MessageBoxResult::YES),
            7 => Some(MessageBoxResult::NO),
            _ => None,
        }
    }

    /// Reads what showing a message box returned: a button code, or else a failure
    /// that carries `last_error`.
    pub fn from_invoke_result(v: i32, last_error: u32) -> (r: Result<MessageBoxResult, Error>)
        ensures
            1 <= v <= 7 ==> r is Ok && r->Ok_0.spec_code() == v,
            !(1 <= v <= 7) ==> r == Err::<MessageBoxResult, Error>(Error { code: last_error }),
    {
        match MessageBoxResult::from_code(v) {
            Some(result) => Ok(result),
            None => Err(Error::from_code(last_error)),
        }
    }
}

} // verus!
