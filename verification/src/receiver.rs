//! Receivers: observers notified with a field's new value on each committed
//! mutation.

use vstd::prelude::*;
use crate::entry::Entry;

verus! {

/// A type that wishes to be notified when a config table entry changes.
///
/// `receive` should not be called by hand: handles call it as the direct
/// consequence of a mutation, with the value already committed to storage.
pub trait Receiver<E: Entry>: Sized {
    /// True when the receiver can be notified.
    spec fn wf(&self) -> bool;

    /// Receives notification of the entry's new value.
    fn receive(&mut self, new_value: &E::Data)
        requires
            old(self).wf(),
        ensures
            final(self).wf(),
    ;
}

/// A receiver that does nothing when notified.
#[derive(Clone, Copy, Debug, Default, PartialEq, Eq, Hash)]
pub struct EmptyReceiver;

impl<E: Entry> Receiver<E> for EmptyReceiver {
    open spec fn wf(&self) -> bool {
        true
    }

    fn receive(&mut self, _new_value: &E::Data) {
    }
}

/// A receiver that calls a closure when notified.
pub struct FnReceiver<E: Entry, F: Fn(&E::Data)> {
    /// The closure called on each notification.
    pub closure: F,
    pub _entry: core::marker::PhantomData<E>,
}

impl<E: Entry, F: Fn(&E::Data)> FnReceiver<E, F> {
    /// Creates a receiver from the closure it will call.
    pub fn new(closure: F) -> (r: Self)
        ensures
            r.closure == closure,
    {
        FnReceiver { closure, _entry: core::marker::PhantomData }
    }
}

impl<E: Entry, F: Fn(&E::Data)> Receiver<E> for FnReceiver<E, F> {
    /// The closure must accept every value of the entry's type.
    open spec fn wf(&self) -> bool {
        forall|v: &E::Data| call_requires(self.closure, (v,))
    }

    fn receive(&mut self, new_value: &E::Data) {
        (self.closure)(new_value);
    }
}

/// A receiver that notifies every receiver of a collection in turn.
pub struct IterReceiver<E: Entry, R: Receiver<E>> {
    /// The receivers notified on each notification, in order.
    pub iter: Vec<R>,
    pub _entry: core::marker::PhantomData<E>,
}

impl<E: Entry, R: Receiver<E>> IterReceiver<E, R> {
    /// Creates a receiver that notifies every receiver of `iter`.
    pub fn new(iter: Vec<R>) -> (r: Self)
        ensures
            r.iter == iter,
    {
        IterReceiver { iter, _entry: core::marker::PhantomData }
    }
}

impl<E: Entry, R: Receiver<E>> Receiver<E> for IterReceiver<E, R> {
    /// Every held receiver must itself be usable.
    open spec fn wf(&self) -> bool {
        forall|k: int| 0 <= k < self.iter@.len() ==> (#[trigger] self.iter@[k]).wf()
    }

    fn receive(&mut self, new_value: &E::Data) {
        let n: usize = self.iter.len();
        let mut i: usize = 0;
        while i < n
            invariant
                i <= n,
                self.iter@.len() == n,
                forall|k: int| 0 <= k < n ==> (#[trigger] self.iter@[k]).wf(),
            decreases n - i,
        {
            let r = vstd::std_specs::vec::vec_index_mut(&mut self.iter, i);
            r.receive(new_value);
            i = i + 1;
        }
    }
}

/// A receiver that forwards to the boxed receiver.
impl<E: Entry, R: Receiver<E>> Receiver<E> for Box<R> {
    open spec fn wf(&self) -> bool {
        (**self).wf()
    }

    fn receive(&mut self, new_value: &E::Data) {
        (&mut **self).receive(new_value);
    }
}

/// A receiver that forwards to the held receiver, or does nothing when
/// empty.
impl<E: Entry, R: Receiver<E>> Receiver<E> for Option<R> {
    open spec fn wf(&self) -> bool {
        match self {
            Option::Some(r) => r.wf(),
            Option::None => true,
        }
    }

    fn receive(&mut self, new_value: &E::Data) {
        match self {
            Option::Some(r) => r.receive(new_value),
            Option::None => {},
        }
    }
}

} // verus!
