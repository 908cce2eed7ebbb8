use vstd::prelude::*;

verus! {

/// A transparent adapter around a contract value.
///
/// It adds no field and no check of its own: at rest it is the value it holds.
pub struct Wrapper<T>(pub T);

impl<T> Wrapper<T> {
    /// Wraps a contract value.
    pub fn new(inner: T) -> (r: Wrapper<T>)
        ensures
            r.0 == inner,
    {
        Wrapper(inner)
    }

    /// Unwraps the contract value; never fails and loses nothing.
    pub fn into_inner(self) -> (r: T)
        ensures
            r == self.0,
    {
        self.0
    }
}

/// The outcome of decoding through the wrapper, given the outcome of decoding the
/// contract itself: the same value wrapped, or the same error.
pub open spec fn wrap_outcome<T, E>(r: Result<T, E>) -> Result<Wrapper<T>, E> {
    match r {
        Ok(v) => Ok(Wrapper(v)),
        Err(e) => Err(e),
    }
}

/// The outcome handed on after decoding through the wrapper: the value unwrapped,
/// or the same error.
pub open spec fn unwrap_outcome<T, E>(w: Result<Wrapper<T>, E>) -> Result<T, E> {
    match w {
        Ok(v) => Ok(v.0),
        Err(e) => Err(e),
    }
}

/// Decodes through the wrapper: a decoded contract is wrapped, a decoding error
/// passes unchanged.
pub fn wrap_decoded<T, E>(r: Result<T, E>) -> (w: Result<Wrapper<T>, E>)
    ensures
        w == wrap_outcome(r),
{
    match r {
        Ok(v) => Ok(Wrapper::new(v)),
        Err(e) => Err(e),
    }
}

/// Unwraps a decoding outcome: a wrapped contract is unwrapped, a decoding error
/// passes unchanged.
pub fn unwrap_decoded<T, E>(w: Result<Wrapper<T>, E>) -> (r: Result<T, E>)
    ensures
        r == unwrap_outcome(w),
{
    match w {
        Ok(v) => Ok(v.into_inner()),
        Err(e) => Err(e),
    }
}

/// Wrapping a decoded contract and unwrapping it at once gives back exactly the
/// contract that decoding it directly gives.
pub proof fn lemma_decode_round_trip<T, E>(v: T)
    ensures
        unwrap_outcome(wrap_outcome(Ok::<T, E>(v))) == Ok::<T, E>(v),
        wrap_outcome(Ok::<T, E>(v)) == Ok::<Wrapper<T>, E>(Wrapper(v)),
{
}

/// Input that the contract's own decoding rejects, the wrapper rejects with the
/// same error; and the wrapper rejects nothing else.
pub proof fn lemma_failure_transparent<T, E>(r: Result<T, E>)
    ensures
        wrap_outcome(r) is Err <==> r is Err,
        r is Err ==> wrap_outcome(r) == Err::<Wrapper<T>, E>(r->Err_0),
        r is Err ==> unwrap_outcome(wrap_outcome(r)) == r,
{
}

} // verus!
