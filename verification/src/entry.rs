//! The marker and accessor contracts that generated code targets.

use vstd::prelude::*;
use crate::handle::Handle;
use crate::receiver::Receiver;

verus! {

/// A type-level identifier for one config table entry.
///
/// Implementors should be uninhabited types: a marker only ties a field's
/// value type and its textual name together at compile time and carries no
/// runtime state.
pub trait Entry: Sized {
    /// The data value that the entry holds.
    type Data;

    /// The textual name of the entry, following field naming convention.
    fn name() -> &'static str;
}

/// Accessor contract of a config table: implemented by the table for every
/// marker `E` that identifies one of its fields.
pub trait Get<E: Entry>: Sized {
    /// The receiver notified when the field is modified through a handle.
    type Receiver: Receiver<E>;

    /// The current value of the field that `E` identifies.
    spec fn spec_field(&self) -> E::Data;

    /// True when the receiver a handle would carry is usable.
    spec fn receiver_wf(&self) -> bool;

    /// An unguarded read of the field.
    fn get_ref(&self) -> (r: &E::Data)
        ensures
            *r == self.spec_field(),
    ;

    /// Takes the field's storage out into a fresh handle paired with the
    /// table's receiver. Until the handle is returned through `put_back`,
    /// the table no longer owns the field's value.
    fn get_handle(&mut self) -> (h: Handle<E, Self::Receiver>)
        requires
            old(self).receiver_wf(),
        ensures
            h.value() == old(self).spec_field(),
            h.wf(),
            h.notified() == Seq::<E::Data>::empty(),
    ;

    /// Returns a handle's storage to the field.
    fn put_back(&mut self, handle: Handle<E, Self::Receiver>)
        ensures
            final(self).spec_field() == handle.value(),
    ;
}

/// Turbofish convenience over [`Get`]: `table.get_handle_to::<M>()` instead
/// of fully qualified trait call syntax.
pub trait GetExt: Sized {
    /// An unguarded read of the field that `E` identifies.
    fn get_ref_to<E: Entry>(&self) -> (r: &E::Data) where Self: Get<E>
        ensures
            *r == Get::<E>::spec_field(self),
    {
        <Self as Get<E>>::get_ref(self)
    }

    /// A handle to the field that `E` identifies.
    fn get_handle_to<E: Entry>(&mut self) -> (h: Handle<E, <Self as Get<E>>::Receiver>) where
        Self: Get<E>,

        requires
            Get::<E>::receiver_wf(&*old(self)),
        ensures
            h.value() == Get::<E>::spec_field(&*old(self)),
            h.wf(),
            h.notified() == Seq::<E::Data>::empty(),
    {
        <Self as Get<E>>::get_handle(self)
    }
}

impl<T: Sized> GetExt for T {

}

} // verus!
