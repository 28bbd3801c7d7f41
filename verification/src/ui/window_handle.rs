//! An opaque identity for a native window.

use vstd::prelude::*;
use vstd::std_specs::convert::FromSpecImpl;

verus! {

/// The identity of a native window: a pointer-sized integer that is never
/// dereferenced here. Zero stands for "no window".
#[derive(Debug, Clone, Copy, PartialEq, Eq, Structural)]
pub struct WindowHandle(isize);

impl View for WindowHandle {
    type V = isize;

    /// The raw pointer-sized value of the handle.
    closed spec fn view(&self) -> isize {
        self.0
    }
}

impl WindowHandle {
    /// The handle whose raw value is `raw`.
    pub closed spec fn of_raw(raw: isize) -> WindowHandle {
        WindowHandle(raw)
    }

    /// The sentinel: the handle whose raw value is zero.
    pub open spec fn null_spec() -> WindowHandle {
        Self::of_raw(0)
    }

    /// A handle names a window unless its raw value is zero.
    pub open spec fn valid(&self) -> bool {
        self@ != 0
    }

    /// The sentinel that stands for "no window".
    #[verifier::when_used_as_spec(null_spec)]
    pub fn null() -> (handle: Self)
        ensures
            handle == Self::null_spec(),
            handle@ == 0,
    {
        Self(0)
    }

    /// Whether the handle names a window: false for the sentinel only.
    #[verifier::when_used_as_spec(valid)]
    pub fn is_valid(&self) -> (valid: bool)
        ensures
            valid == self.valid(),
    {
        self.0 != 0
    }

    /// The handle of the window with the given raw value. Every value is
    /// taken as it is.
    #[verifier::when_used_as_spec(of_raw)]
    pub fn from_raw(raw: isize) -> (handle: Self)
        ensures
            handle == Self::of_raw(raw),
            handle@ == raw,
    {
        Self(raw)
    }

    /// The raw value, zero for the sentinel.
    pub fn as_raw(&self) -> (raw: isize)
        ensures
            raw == self@,
    {
        self.0
    }

    /// The address of the window as a pointer would hold it, or `None` for
    /// the sentinel.
    pub fn as_ptr(&self) -> (address: Option<isize>)
        ensures
            address == (if self.valid() {
                Some(self@)
            } else {
                None
            }),
    {
        if self.is_valid() {
            Some(self.0)
        } else {
            None
        }
    }

    /// A handle made from a raw value holds that value and is valid exactly
    /// if the value is not zero; the sentinel is the handle made from zero
    /// and is not valid.
    pub proof fn lemma_raw_round_trip(raw: isize)
        ensures
            WindowHandle::from_raw(raw)@ == raw,
            WindowHandle::from_raw(raw).is_valid() <==> raw != 0,
            WindowHandle::null()@ == 0,
            !WindowHandle::null().is_valid(),
    {
    }

    /// A handle is the one made from its own raw value: the raw value is all
    /// that a handle holds.
    pub proof fn lemma_handle_is_its_raw_value(handle: WindowHandle)
        ensures
            WindowHandle::from_raw(handle@) == handle,
    {
    }
}

impl From<isize> for WindowHandle {
    fn from(value: isize) -> (handle: Self) {
        Self(value)
    }
}

impl FromSpecImpl<isize> for WindowHandle {
    open spec fn obeys_from_spec() -> bool {
        true
    }

    open spec fn from_spec(value: isize) -> Self {
        WindowHandle::of_raw(value)
    }
}

impl From<Option<isize>> for WindowHandle {
    fn from(value: Option<isize>) -> (handle: Self) {
        match value {
            Some(raw) => Self(raw),
            None => Self(0),
        }
    }
}

impl FromSpecImpl<Option<isize>> for WindowHandle {
    open spec fn obeys_from_spec() -> bool {
        true
    }

    open spec fn from_spec(value: Option<isize>) -> Self {
        match value {
            Some(raw) => WindowHandle::of_raw(raw),
            None => WindowHandle::of_raw(0),
        }
    }
}

} // verus!
