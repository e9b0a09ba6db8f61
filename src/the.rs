//! The accessor through which a message handler reaches its window's bound state.
use vstd::prelude::*;

verus! {

/// A borrowed, per-message view of a window's bound state.
///
/// It never owns the state: dropping it frees nothing, and it cannot outlive
/// the slot it was taken from.
pub struct The<'a, T> {
    the: Option<&'a mut T>,
}

impl<'a, T> The<'a, T> {
    /// The state seen through the accessor, if any.
    pub closed spec fn value(&self) -> Option<T> {
        match &self.the {
            Some(r) => Some(**r),
            None => None,
        }
    }

    /// An accessor over `the`.
    pub fn new(the: Option<&'a mut T>) -> (r: Self)
        ensures
            r.value() == (match the {
                Some(v) => Some(*v),
                None => None::<T>,
            }),
    {
        The { the }
    }

    /// Whether the window has bound state.
    pub fn has_value(&self) -> (r: bool)
        ensures
            r == self.value() is Some,
    {
        self.the.is_some()
    }

    /// A read view of the state, or `None` when the window has none.
    pub fn as_ref(&self) -> (r: Option<TheRef<'_, T>>)
        ensures
            r is Some <==> self.value() is Some,
            r is Some ==> r->0.value() == self.value()->0,
    {
        match &self.the {
            Some(v) => Some(TheRef { the: &**v }),
            None => None,
        }
    }

    /// A write view of the state, or `None` when the window has none.
    pub fn as_mut(&mut self) -> (r: Option<TheMut<'_, T>>)
        ensures
            r is Some <==> old(self).value() is Some,
            r is Some ==> r->0.value() == old(self).value()->0,
    {
        match &mut self.the {
            Some(v) => Some(TheMut { the: &mut **v }),
            None => None,
        }
    }
}

/// A read view obtained from `The::as_ref`.
pub struct TheRef<'b, T> {
    the: &'b T,
}

impl<'b, T> TheRef<'b, T> {
    /// The state this view reads.
    pub closed spec fn value(&self) -> T {
        *self.the
    }
}

impl<'b, T> core::ops::Deref for TheRef<'b, T> {
    type Target = T;

    fn deref(&self) -> (r: &T)
        ensures
            *r == self.value(),
    {
        self.the
    }
}

/// A write view obtained from `The::as_mut`.
pub struct TheMut<'b, T> {
    the: &'b mut T,
}

impl<'b, T> TheMut<'b, T> {
    /// The state this view reads and writes.
    pub closed spec fn value(&self) -> T {
        *self.the
    }
}

impl<'b, T> core::ops::Deref for TheMut<'b, T> {
    type Target = T;

    fn deref(&self) -> (r: &T)
        ensures
            *r == self.value(),
    {
        &*self.the
    }
}

impl<'b, T> core::ops::DerefMut for TheMut<'b, T> {
    fn deref_mut(&mut self) -> (r: &mut T)
        ensures
            *r == old(self).value(),
    {
        &mut *self.the
    }
}

} // verus!
