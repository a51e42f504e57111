//! Handles: scoped, exclusive access to one field's storage paired with the
//! receiver that observes it.
//!
//! A handle owns the field's storage for its whole scope, together with one
//! receiver instance, and keeps (as ghost state) the list of values the
//! receiver has been notified with through it. The notifying operations
//! commit the mutation first and then notify exactly once with the
//! committed value; the silent operations leave the notification list
//! untouched.

use vstd::prelude::*;
use crate::entry::Entry;
use crate::receiver::Receiver;

verus! {

/// A handle to a config entry value watched by a receiver.
pub struct Handle<E: Entry, R: Receiver<E>> {
    target: E::Data,
    receiver: R,
    notified: Ghost<Seq<E::Data>>,
}

impl<E: Entry, R: Receiver<E>> Handle<E, R> {
    /// The value currently in the handle's storage.
    pub closed spec fn value(&self) -> E::Data {
        self.target
    }

    /// The receiver the handle notifies.
    pub closed spec fn receiver(&self) -> R {
        self.receiver
    }

    /// The values the receiver has been notified with through this handle,
    /// oldest first.
    pub closed spec fn notified(&self) -> Seq<E::Data> {
        self.notified@
    }

    /// True when the handle's receiver can be notified.
    pub open spec fn wf(&self) -> bool {
        self.receiver().wf()
    }

    /// Creates a handle over the given storage with the given receiver;
    /// nothing has been notified through it yet.
    pub fn new(target: E::Data, receiver: R) -> (h: Self)
        ensures
            h.value() == target,
            h.receiver() == receiver,
            h.notified() == Seq::<E::Data>::empty(),
    {
        Handle { target, receiver, notified: Ghost(Seq::empty()) }
    }

    /// A read of the current value.
    pub fn get_ref(&self) -> (r: &E::Data)
        ensures
            *r == self.value(),
    {
        &self.target
    }

    /// Replaces the stored value and then notifies the receiver exactly
    /// once, with the committed new value.
    pub fn set(&mut self, new_value: E::Data)
        requires
            old(self).wf(),
        ensures
            final(self).wf(),
            final(self).value() == new_value,
            final(self).notified() == old(self).notified().push(new_value),
    {
        self.target = new_value;
        self.receiver.receive(&self.target);
        self.notified = Ghost(self.notified@.push(self.target));
    }

    /// Opens a scope for modifying the value in place; the receiver is
    /// notified exactly once, with the value the scope ends with, when the
    /// scope is closed.
    pub fn modify(self) -> (s: ModificationScope<E, R>)
        ensures
            s.value() == self.value(),
            s.receiver() == self.receiver(),
            s.notified() == self.notified(),
    {
        let Handle { target, receiver, notified } = self;
        ModificationScope { target, receiver, notified }
    }

    /// Applies the mutation function to the stored value and then notifies
    /// the receiver exactly once, with the committed new value.
    pub fn modify_with<F: Fn(&E::Data) -> E::Data>(&mut self, f: F)
        requires
            old(self).wf(),
            forall|v: &E::Data| call_requires(f, (v,)),
        ensures
            final(self).wf(),
            call_ensures(f, (&old(self).value(),), final(self).value()),
            final(self).notified() == old(self).notified().push(final(self).value()),
    {
        let new_value = f(&self.target);
        self.target = new_value;
        self.receiver.receive(&self.target);
        self.notified = Ghost(self.notified@.push(self.target));
    }

    /// Replaces the stored value without notifying the receiver. Heavily
    /// discouraged; reserved for special cases.
    pub fn set_silently(&mut self, new_value: E::Data)
        ensures
            final(self).value() == new_value,
            final(self).receiver() == old(self).receiver(),
            final(self).notified() == old(self).notified(),
    {
        self.target = new_value;
    }

    /// A mutable borrow of the stored value, bypassing notification.
    /// Heavily discouraged; reserved for special cases.
    pub fn modify_silently(&mut self) -> (r: &mut E::Data)
        ensures
            *r == old(self).value(),
            final(self).value() == *final(r),
            final(self).receiver() == old(self).receiver(),
            final(self).notified() == old(self).notified(),
    {
        &mut self.target
    }

    /// Applies the mutation function to the stored value without notifying
    /// the receiver. Heavily discouraged; reserved for special cases.
    pub fn modify_silently_with<F: Fn(&E::Data) -> E::Data>(&mut self, f: F)
        requires
            forall|v: &E::Data| call_requires(f, (v,)),
        ensures
            call_ensures(f, (&old(self).value(),), final(self).value()),
            final(self).receiver() == old(self).receiver(),
            final(self).notified() == old(self).notified(),
    {
        let new_value = f(&self.target);
        self.target = new_value;
    }
}

/// A scope for modifying the value behind a [`Handle`] in place.
///
/// While the scope is open, the value can be read and mutated freely with
/// nothing observed. The only way back to the handle is `finish`, which
/// commits the scope by notifying the receiver exactly once with the value
/// the storage then holds — so a completed scope cannot forget its
/// notification.
pub struct ModificationScope<E: Entry, R: Receiver<E>> {
    target: E::Data,
    receiver: R,
    notified: Ghost<Seq<E::Data>>,
}

impl<E: Entry, R: Receiver<E>> ModificationScope<E, R> {
    /// The value currently in the scope's storage.
    pub closed spec fn value(&self) -> E::Data {
        self.target
    }

    /// The receiver notified when the scope is closed.
    pub closed spec fn receiver(&self) -> R {
        self.receiver
    }

    /// The values notified through the underlying handle so far.
    pub closed spec fn notified(&self) -> Seq<E::Data> {
        self.notified@
    }

    /// True when the scope's receiver can be notified.
    pub open spec fn wf(&self) -> bool {
        self.receiver().wf()
    }

    /// A read of the value under modification.
    pub fn get_ref(&self) -> (r: &E::Data)
        ensures
            *r == self.value(),
    {
        &self.target
    }

    /// A mutable borrow of the value under modification; nothing is
    /// observed until the scope is closed.
    pub fn get_mut(&mut self) -> (r: &mut E::Data)
        ensures
            *r == old(self).value(),
            final(self).value() == *final(r),
            final(self).receiver() == old(self).receiver(),
            final(self).notified() == old(self).notified(),
    {
        &mut self.target
    }

    /// Closes the scope: notifies the receiver exactly once, with the value
    /// the storage holds now, and gives the handle back.
    pub fn finish(self) -> (h: Handle<E, R>)
        requires
            self.wf(),
        ensures
            h.wf(),
            h.value() == self.value(),
            h.notified() == self.notified().push(self.value()),
    {
        let ModificationScope { target, mut receiver, notified } = self;
        receiver.receive(&target);
        Handle { target, receiver, notified: Ghost(notified@.push(target)) }
    }
}

} // verus!
