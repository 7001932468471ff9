use vstd::prelude::*;
use std::marker::PhantomData;

verus! {

/// The address of a symbol of a module, to be read as a `T`. Nothing ties it to
/// the module's lifetime: whoever reads through it must know the module is
/// still loaded and that `T` is the symbol's real type.
pub struct RawSymbol<T> {
    ptr: usize,
    _marker: PhantomData<T>,
}

impl<T> RawSymbol<T> {
    pub closed spec fn addr(&self) -> usize {
        self.ptr
    }

    /// Wraps a resolved address.
    pub fn from_ptr(ptr: usize) -> (r: Self)
        ensures
            r.addr() == ptr,
    {
        RawSymbol { ptr, _marker: PhantomData }
    }

    /// The wrapped address.
    pub fn address(&self) -> (r: usize)
        ensures
            r == self.addr(),
    {
        self.ptr
    }

    /// The stored address in place, for readers that reinterpret it as a `T`.
    pub fn address_ref(&self) -> (r: &usize)
        ensures
            *r == self.addr(),
    {
        &self.ptr
    }
}

/// A symbol borrowed from the module it was resolved in, which therefore stays
/// loaded as long as the symbol is in use.
pub struct Symbol<'a, T> {
    inner: RawSymbol<T>,
    _marker: PhantomData<&'a T>,
}

impl<'a, T> Symbol<'a, T> {
    pub closed spec fn addr(&self) -> usize {
        self.inner.addr()
    }

    /// Ties a raw symbol to the lifetime of its module's borrow.
    pub fn new(inner: RawSymbol<T>) -> (r: Self)
        ensures
            r.addr() == inner.addr(),
    {
        Symbol { inner, _marker: PhantomData }
    }

    /// The symbol's raw form.
    pub fn raw(&self) -> (r: &RawSymbol<T>)
        ensures
            r.addr() == self.addr(),
    {
        &self.inner
    }
}

} // verus!
