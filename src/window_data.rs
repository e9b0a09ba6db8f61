//! The state bound to a window, tagged with the identity of its type.
use crate::safe_proc::{lifecycle, lifecycle_of, Lifecycle, WM_NCDESTROY};
use crate::the::The;
use std::any::TypeId;
use vstd::prelude::*;

verus! {

/// Declares `std::any::TypeId`, the identity of a type, so that bound state
/// can carry the identity of its type. Its contents stay hidden.
#[verifier::external_type_specification]
#[verifier::external_body]
pub struct ExTypeId(std::any::TypeId);

/// Relies on `std::any::TypeId::of`: the identity of `T`, used as the tag of
/// bound state. Nothing is assumed of its value.
#[verifier::external_body]
pub(crate) fn type_id_of<T: 'static>() -> (r: TypeId) {
    TypeId::of::<T>()
}

/// Relies on `TypeId`'s `==`: two identities compare equal exactly when they
/// are the same value.
#[verifier::external_body]
pub(crate) fn same_type(a: &TypeId, b: &TypeId) -> (r: bool)
    ensures
        r == (*a == *b),
{
    *a == *b
}

/// The state bound to one window: at most one value, and the identity of its type.
///
/// The value is kept behind a box, so the slot has the same size and field
/// types whatever `T` is.
pub struct WindowBindData<T> {
    type_tag: TypeId,
    data: Option<Box<T>>,
}

/// The error of a cast to a type other than the one the state was bound with.
#[derive(Debug, Clone, Copy, PartialEq, Eq)]
pub struct TypeMismatch {
    /// The identity of the type asked for.
    pub expected: TypeId,
    /// The identity of the type the state was bound with.
    pub found: TypeId,
}

/// The bound value left after the window procedure has run on `msg`: the
/// window's last message frees it, any other message keeps it.
pub open spec fn payload_after<T>(payload: Option<T>, msg: u32) -> Option<T> {
    if lifecycle_of(msg) == Lifecycle::Destroy {
        None
    } else {
        payload
    }
}

/// The bound value left after the window procedure has run on each of `msgs`
/// in turn.
pub open spec fn payload_after_all<T>(payload: Option<T>, msgs: Seq<u32>) -> Option<T>
    decreases msgs.len(),
{
    if msgs.len() == 0 {
        payload
    } else {
        payload_after_all(payload_after(payload, msgs[0]), msgs.drop_first())
    }
}

/// What a cast of a slot holding `payload`, bound with the type `tag`, to the
/// type `requested` yields: the value seen through the accessor, or the
/// mismatch.
pub open spec fn cast_spec<T>(payload: Option<T>, tag: TypeId, requested: TypeId) -> Result<
    Option<T>,
    TypeMismatch,
> {
    if tag == requested {
        Ok(payload)
    } else {
        Err(TypeMismatch { expected: requested, found: tag })
    }
}

/// The value an accessor result shows, or its error.
pub open spec fn accessor_outcome<'a, T>(r: Result<The<'a, T>, TypeMismatch>) -> Result<
    Option<T>,
    TypeMismatch,
> {
    match r {
        Ok(the) => Ok(the.value()),
        Err(e) => Err(e),
    }
}

impl<T: 'static> WindowBindData<T> {
    /// The bound value, or `None` once it has been freed.
    pub closed spec fn payload(&self) -> Option<T> {
        match self.data {
            Some(b) => Some(*b),
            None => None,
        }
    }

    /// The identity of the type the state was bound with.
    pub closed spec fn tag(&self) -> TypeId {
        self.type_tag
    }

    /// Binds `data`, tagged with the identity of `T`.
    pub fn new(data: T) -> (r: Self)
        ensures
            r.payload() == Some(data),
    {
        Self { type_tag: type_id_of::<T>(), data: Some(Box::new(data)) }
    }

    /// The tag of the state.
    pub fn tag_id(&self) -> (r: TypeId)
        ensures
            r == self.tag(),
    {
        self.type_tag
    }

    /// Whether the value is still there.
    pub fn has_data(&self) -> (r: bool)
        ensures
            r == self.payload() is Some,
    {
        self.data.is_some()
    }

    /// Drops the value; the tag stays.
    pub fn free(&mut self)
        ensures
            final(self).payload() is None,
            final(self).tag() == old(self).tag(),
    {
        self.data = None;
    }

    /// Brings the slot to where the window procedure leaves it after `msg`:
    /// the window's last message frees the bound value.
    pub fn settle(&mut self, msg: u32)
        ensures
            final(self).payload() == payload_after(old(self).payload(), msg),
            final(self).tag() == old(self).tag(),
    {
        if lifecycle(msg) == Lifecycle::Destroy {
            self.data = None;
        }
    }

    /// A write reference to the value, if any.
    fn payload_mut(&mut self) -> (r: Option<&mut T>)
        ensures
            r is Some <==> old(self).payload() is Some,
            r is Some ==> *r->0 == old(self).payload()->0,
            final(self).tag() == old(self).tag(),
            r is None ==> final(self).payload() == old(self).payload(),
            (final(self).payload() is Some) == (old(self).payload() is Some),
    {
        match &mut self.data {
            Some(b) => Some(&mut **b),
            None => None,
        }
    }

    /// Gives the value back, leaving the slot empty.
    pub fn take(&mut self) -> (r: Option<T>)
        ensures
            r == old(self).payload(),
            final(self).payload() is None,
            final(self).tag() == old(self).tag(),
    {
        match self.data.take() {
            Some(b) => Some(*b),
            None => None,
        }
    }
}

/// The accessor over a window's slot, after checking that the slot was bound
/// with the type whose identity is `requested`. An absent slot gives an
/// accessor without a value.
pub fn cast_checked<'a, T: 'static>(
    slot: Option<&'a mut WindowBindData<T>>,
    requested: TypeId,
) -> (r: Result<The<'a, T>, TypeMismatch>)
    ensures
        accessor_outcome(r) == match slot {
            None => Ok(None),
            Some(s) => cast_spec(s.payload(), s.tag(), requested),
        },
        match slot {
            None => true,
            Some(s) => final(s).tag() == s.tag() && (final(s).payload() is Some <==> s.payload() is Some),
        },
{
    match slot {
        None => Ok(The::new(None)),
        Some(s) => {
            if !same_type(&s.type_tag, &requested) {
                return Err(TypeMismatch { expected: requested, found: s.type_tag });
            }
            Ok(The::new(s.payload_mut()))
        },
    }
}

/// The accessor over a window's slot, typed as `T`; fails with
/// `TypeMismatch` when the slot was bound with another type.
pub fn assert_cast<'a, T: 'static>(slot: Option<&'a mut WindowBindData<T>>) -> (r: Result<
    The<'a, T>,
    TypeMismatch,
>)
    ensures
        slot is None ==> r is Ok && r->Ok_0.value() is None,
        slot is Some && r is Ok ==> r->Ok_0.value() == (*slot->0).payload(),
        r is Err ==> slot is Some && r->Err_0.found == (*slot->0).tag(),
{
    cast_checked(slot, type_id_of::<T>())
}

/// The accessor that the handler of `msg` receives: the slot is checked
/// against `requested` first, then brought to where `msg` leaves it (the
/// window's last message frees the bound value), then viewed.
pub fn cast_for_message<'a, T: 'static>(
    slot: Option<&'a mut WindowBindData<T>>,
    requested: TypeId,
    msg: u32,
) -> (r: Result<The<'a, T>, TypeMismatch>)
    ensures
        accessor_outcome(r) == match slot {
            None => Ok(None),
            Some(s) => cast_spec(payload_after(s.payload(), msg), s.tag(), requested),
        },
        match slot {
            None => true,
            Some(s) => {
                &&& final(s).tag() == s.tag()
                &&& r is Err ==> final(s).payload() == s.payload()
                &&& r is Ok ==> (final(s).payload() is Some <==> payload_after(s.payload(), msg) is Some)
                &&& r is Ok && lifecycle_of(msg) == Lifecycle::Destroy ==> final(s).payload() is None
            },
        },
{
    match slot {
        None => Ok(The::new(None)),
        Some(s) => {
            if !same_type(&s.type_tag, &requested) {
                return Err(TypeMismatch { expected: requested, found: s.type_tag });
            }
            s.settle(msg);
            Ok(The::new(s.payload_mut()))
        },
    }
}

/// Once a window's last message has been handled, its slot holds no value,
/// whatever messages follow; so every accessor taken afterwards, of any type,
/// shows no value.
pub proof fn lemma_empty_after_destroy<T>(
    payload: Option<T>,
    later: Seq<u32>,
    tag: TypeId,
    requested: TypeId,
)
    ensures
        payload_after_all(payload_after(payload, WM_NCDESTROY), later) is None,
        cast_spec(payload_after_all(payload_after(payload, WM_NCDESTROY), later), tag, requested)
            matches Ok(v) ==> v is None,
    decreases later.len(),
{
    if later.len() > 0 {
        lemma_empty_after_destroy(payload_after(payload, WM_NCDESTROY), later.drop_first(), tag, requested);
    }
}

/// A value bound to a window comes back unchanged through an accessor of the
/// type it was bound with, right after binding and after any message but the
/// window's last.
pub proof fn lemma_round_trip<T>(v: T, tag: TypeId, msg: u32)
    ensures
        cast_spec(Some(v), tag, tag) == Ok::<Option<T>, TypeMismatch>(Some(v)),
        lifecycle_of(msg) != Lifecycle::Destroy ==> cast_spec(payload_after(Some(v), msg), tag, tag)
            == Ok::<Option<T>, TypeMismatch>(Some(v)),
{
}

} // verus!
