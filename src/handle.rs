use vstd::prelude::*;

verus! {

/// Sole owner of the state `N` of a native object.
#[derive(Clone, Debug)]
pub struct Handle<N> {
    native: N,
}

/// Shared, reference-counted holder of the state `N` of a native object.
/// The state of a shared object does not change once it is made.
#[derive(Clone, Debug)]
pub struct RCHandle<N> {
    native: N,
}

impl<N> View for Handle<N> {
    type V = N;

    closed spec fn view(&self) -> N {
        self.native
    }
}

impl<N> View for RCHandle<N> {
    type V = N;

    closed spec fn view(&self) -> N {
        self.native
    }
}

impl<N> Handle<N> {
    pub fn from_native(native: N) -> (r: Self)
        ensures
            r@ == native,
    {
        Handle { native }
    }

    pub fn native(&self) -> (r: &N)
        ensures
            *r == self@,
    {
        &self.native
    }

    /// Replaces the state, as a native call that changes the object does.
    pub fn set_native(&mut self, native: N)
        ensures
            final(self)@ == native,
    {
        self.native = native;
    }
}

impl<N> RCHandle<N> {
    pub fn from_native(native: N) -> (r: Self)
        ensures
            r@ == native,
    {
        RCHandle { native }
    }

    pub fn native(&self) -> (r: &N)
        ensures
            *r == self@,
    {
        &self.native
    }
}

} // verus!
