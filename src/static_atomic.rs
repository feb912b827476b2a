//! An atomic byte whose load admits only the orderings that make sense for
//! a load: `Release` and `AcqRel` are refused where the call is written.
use vstd::prelude::*;
use std::sync::atomic::Ordering;

verus! {

/// An ordering that a load may use: anything but `Release` and `AcqRel`.
pub open spec fn is_load_ordering(ordering: Ordering) -> bool {
    !(ordering is Release) && !(ordering is AcqRel)
}

/// A byte that can be shared between threads.
///
/// The byte is written once, by `new`, and never again: the library offers
/// no store and keeps the inner atomic private. Its view is that byte.
pub struct AtomicU8 {
    inner: std::sync::atomic::AtomicU8,
    value: Ghost<u8>,
}

impl View for AtomicU8 {
    type V = u8;

    closed spec fn view(&self) -> u8 {
        self.value@
    }
}

/// Relies on std's `AtomicU8::load`: it returns a value written to the
/// atomic, and the only write to `a.inner` is the initial value given in
/// `AtomicU8::new`, which the view records. It panics on `Release` and
/// `AcqRel`, which `requires` leaves out.
#[verifier::external_body]
fn load_stored(a: &AtomicU8, ordering: Ordering) -> (r: u8)
    requires
        is_load_ordering(ordering),
    ensures
        r == a@,
{
    a.inner.load(ordering)
}

impl AtomicU8 {
    /// An atomic byte holding `v`.
    pub fn new(v: u8) -> (r: AtomicU8)
        ensures
            r@ == v,
    {
        AtomicU8 { inner: std::sync::atomic::AtomicU8::new(v), value: Ghost(v) }
    }

    /// Load the byte with the given ordering, which may be neither `Release`
    /// nor `AcqRel`; the stored byte comes back unchanged.
    pub fn load(&self, ordering: Ordering) -> (r: u8)
        requires
            is_load_ordering(ordering),
        ensures
            r == self@,
    {
        load_stored(self, ordering)
    }
}

} // verus!
