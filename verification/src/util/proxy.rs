//! Limited access to a value.
use vstd::prelude::*;

verus! {

/// Provides limited access to a value of type `T`: the value can be looked
/// at, and what a function makes of it can be had behind another proxy.
pub struct Proxy<'a, T> {
    /// Where the value is.
    pub state: ProxyState<'a, T>,
}

/// Where the value behind a [`Proxy`] is.
pub enum ProxyState<'a, T> {
    /// The value is someone else's, and is borrowed.
    ProxyRef(&'a T),
    /// The value was made for the proxy, which holds it.
    ProxyFn(T),
}

impl<'a, T> Proxy<'a, T> {
    /// The value that the proxy gives access to.
    pub open spec fn value(&self) -> T {
        match self.state {
            ProxyState::ProxyRef(value) => *value,
            ProxyState::ProxyFn(value) => value,
        }
    }

    /// Makes a proxy for a borrowed value.
    pub fn new(value: &'a T) -> (r: Self)
        ensures
            r.state == ProxyState::ProxyRef(value),
            r.value() == *value,
    {
        Proxy { state: ProxyState::ProxyRef(value) }
    }

    /// Makes a proxy for the value that the accessor hands out.
    pub fn new_fn<F: FnOnce() -> T>(accessor: F) -> (r: Self)
        requires
            call_requires(accessor, ()),
        ensures
            r.state is ProxyFn,
            call_ensures(accessor, (), r.value()),
    {
        Proxy { state: ProxyState::ProxyFn(accessor()) }
    }

    /// Gives access to the value.
    pub fn access(&self) -> (r: &T)
        ensures
            *r == self.value(),
    {
        match &self.state {
            ProxyState::ProxyRef(value) => value,
            ProxyState::ProxyFn(value) => value,
        }
    }

    /// Makes a proxy for what the function makes of the value.
    pub fn map<U, F: FnOnce(&T) -> U>(&self, f: F) -> (r: Proxy<'_, U>)
        requires
            call_requires(f, (&self.value(),)),
        ensures
            r.state is ProxyFn,
            call_ensures(f, (&self.value(),), r.value()),
    {
        Proxy { state: ProxyState::ProxyFn(f(self.access())) }
    }
}

impl<'a, T> Clone for ProxyState<'a, T> where T: Copy {
    fn clone(&self) -> (r: Self)
        ensures
            r == *self,
    {
        *self
    }
}

impl<'a, T: Copy> Copy for ProxyState<'a, T> {

}

impl<'a, T: Copy> Clone for Proxy<'a, T> {
    fn clone(&self) -> (r: Self)
        ensures
            r == *self,
    {
        *self
    }
}

impl<'a, T: Copy> Copy for Proxy<'a, T> {

}

} // verus!
