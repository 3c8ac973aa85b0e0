use vstd::prelude::*;
use core::marker::PhantomData;

verus! {

/// An acceptance check over parsed values: `verdict(v, r)` holds of every
/// answer `r` that a call on `v` may give.
pub trait Validator<T> {
    spec fn verdict(&self, v: &T, r: bool) -> bool;

    fn accepts(&self, v: &T) -> (r: bool)
        ensures
            self.verdict(v, r),
    ;
}

/// The check of a fresh configuration: every value is accepted.
pub struct AcceptAll;

impl<T> Validator<T> for AcceptAll {
    open spec fn verdict(&self, v: &T, r: bool) -> bool {
        r
    }

    fn accepts(&self, v: &T) -> (r: bool) {
        true
    }
}

/// A check given by a function over a borrowed value that may be called on
/// every value.
pub struct Check<T, F: Fn(&T) -> bool> {
    f: F,
    target: PhantomData<T>,
}

impl<T, F: Fn(&T) -> bool> Check<T, F> {
    #[verifier::type_invariant]
    spec fn callable(&self) -> bool {
        forall|v: &T| call_requires(self.f, (v,))
    }

    /// The function this check calls.
    pub closed spec fn function(&self) -> F {
        self.f
    }

    pub fn new(f: F) -> (r: Self)
        requires
            forall|v: &T| call_requires(f, (v,)),
        ensures
            r.function() == f,
    {
        Check { f, target: PhantomData }
    }
}

/// A check is determined by the function it calls.
pub proof fn lemma_check_by_function<T, F: Fn(&T) -> bool>(a: Check<T, F>, b: Check<T, F>)
    requires
        a.function() == b.function(),
    ensures
        a == b,
{
}

impl<T, F: Fn(&T) -> bool> Validator<T> for Check<T, F> {
    open spec fn verdict(&self, v: &T, r: bool) -> bool {
        call_ensures(self.function(), (v,), r)
    }

    fn accepts(&self, v: &T) -> (r: bool) {
        proof {
            use_type_invariant(self);
        }
        (self.f)(v)
    }
}

} // verus!
