//! Identities of windows, timers and drawing contexts, held as plain numbers.
use vstd::prelude::*;

verus! {

/// The native handle of a window, valid while the window exists.
///
/// To name a window from another thread, use `WindowId`.
#[derive(Debug, Clone, Copy, PartialEq, Eq, PartialOrd, Ord, Hash)]
pub struct WindowHandle {
    pub handle: usize,
}

impl WindowHandle {
    /// The handle with the given native value.
    pub fn from_raw(handle: usize) -> (r: Self)
        ensures
            r.handle == handle,
    {
        WindowHandle { handle }
    }

    /// The portable identity of the same window.
    pub fn id(&self) -> (r: WindowId)
        ensures
            r.handle == self.handle,
    {
        WindowId { handle: self.handle }
    }
}

/// A portable, copyable identity of a window; it has to be resolved to a
/// live window by the platform before each use.
#[derive(Debug, Clone, Copy, PartialEq, Eq, PartialOrd, Ord, Hash)]
pub struct WindowId {
    pub handle: usize,
}

impl WindowId {
    /// The identity with the given native value.
    pub fn from_raw(handle: usize) -> (r: Self)
        ensures
            r.handle == handle,
    {
        WindowId { handle }
    }

    /// The native value of the identity.
    pub fn handle(&self) -> (r: usize)
        ensures
            r == self.handle,
    {
        self.handle
    }
}

/// The drawing context of a window, handed to the handler of a paint message.
#[derive(Debug, Clone, Copy, PartialEq, Eq, PartialOrd, Ord, Hash)]
pub struct Context {
    pub hwnd: usize,
}

impl Context {
    /// The drawing context of the window with the given native handle.
    pub fn from_raw(hwnd: usize) -> (r: Self)
        ensures
            r.hwnd == hwnd,
    {
        Context { hwnd }
    }

    /// The native handle of the window drawn on.
    pub fn hwnd(&self) -> (r: usize)
        ensures
            r == self.hwnd,
    {
        self.hwnd
    }
}

/// The identifier of a timer, as carried by a timer message.
#[derive(Debug, Clone, Copy, PartialEq, Eq, PartialOrd, Ord, Hash)]
pub struct TimerId {
    pub uid: usize,
}

impl TimerId {
    /// The timer identifier `uid`.
    pub fn new(uid: usize) -> (r: Self)
        ensures
            r.uid == uid,
    {
        Self { uid }
    }
}

/// A timer running for a window.
#[derive(Debug)]
pub struct Timer {
    hwnd: usize,
    uid: usize,
}

impl Timer {
    pub closed spec fn spec_hwnd(&self) -> usize {
        self.hwnd
    }

    pub closed spec fn spec_uid(&self) -> usize {
        self.uid
    }

    /// The timer `uid` of the window with native handle `hwnd`.
    pub fn new(hwnd: usize, uid: usize) -> (r: Self)
        ensures
            r.spec_hwnd() == hwnd,
            r.spec_uid() == uid,
    {
        Self { hwnd, uid }
    }

    /// The identifier timer messages carry for this timer.
    pub fn id(&self) -> (r: TimerId)
        ensures
            r.uid == self.spec_uid(),
    {
        TimerId::new(self.uid)
    }

    /// The native handle of the window the timer runs for.
    pub fn hwnd(&self) -> (r: usize)
        ensures
            r == self.spec_hwnd(),
    {
        self.hwnd
    }
}

} // verus!
