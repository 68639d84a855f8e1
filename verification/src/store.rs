use vstd::prelude::*;

use crate::value::FormValue;

verus! {

/// Model of one shared store cell holding the form state.
///
/// The real cell lives in an outside store that serializes reductions on the
/// event loop; each reduction applied there is one call of a `reduce`
/// method here, and each borrow of the current state is one call of
/// `state`. Reducers take and return the state by value; the store applies
/// them to the cell in place.
pub struct Store<T> {
    value: T,
}

impl<T> View for Store<T> {
    type V = T;

    closed spec fn view(&self) -> T {
        self.value
    }
}

impl<T: FormValue> Store<T> {
    /// A cell holding `value`.
    pub fn new(value: T) -> (s: Self)
        ensures
            s@ == value,
    {
        Store { value }
    }

    /// Borrow the current state; no copy is made.
    pub fn state(&self) -> (r: &T)
        ensures
            *r == self@,
    {
        &self.value
    }

    /// Apply a repeatable reducer to the cell.
    pub fn reduce<F: Fn(T) -> T>(&mut self, f: F)
        requires
            call_requires(f, (old(self)@,)),
        ensures
            call_ensures(f, (old(self)@,), final(self)@),
    {
        let mut v = T::default_value();
        core::mem::swap(&mut v, &mut self.value);
        self.value = f(v);
    }

    /// Apply a single-shot reducer to the cell.
    pub fn reduce_once<F: FnOnce(T) -> T>(&mut self, f: F)
        requires
            call_requires(f, (old(self)@,)),
        ensures
            call_ensures(f, (old(self)@,), final(self)@),
    {
        let mut v = T::default_value();
        core::mem::swap(&mut v, &mut self.value);
        self.value = f(v);
    }

    /// Apply a repeatable reducer that also consumes an event payload.
    pub fn reduce_with<E, F: Fn(T, E) -> T>(&mut self, f: F, e: E)
        requires
            call_requires(f, (old(self)@, e)),
        ensures
            call_ensures(f, (old(self)@, e), final(self)@),
    {
        let mut v = T::default_value();
        core::mem::swap(&mut v, &mut self.value);
        self.value = f(v, e);
    }

    /// Apply a single-shot reducer that also consumes an event payload.
    pub fn reduce_once_with<E, F: FnOnce(T, E) -> T>(&mut self, f: F, e: E)
        requires
            call_requires(f, (old(self)@, e)),
        ensures
            call_ensures(f, (old(self)@, e), final(self)@),
    {
        let mut v = T::default_value();
        core::mem::swap(&mut v, &mut self.value);
        self.value = f(v, e);
    }

    /// Overwrite the cell.
    pub fn replace(&mut self, v: T)
        ensures
            final(self)@ == v,
    {
        self.value = v;
    }
}

} // verus!
