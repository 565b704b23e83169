//! The binding between a request, the method it calls and the response it
//! is answered with.

use vstd::prelude::*;

verus! {

/// A request payload. The type fixes the wire method that the request calls
/// and the type of the payload that answers it; neither depends on a value.
pub trait Request {
    /// The name by which the remote end routes the call.
    const METHOD: &'static str;

    /// The payload that answers the call.
    type Response;
}

/// A request that may go out without parameters. Whether it does is asked
/// of each value, so that a type may leave them out for some values only.
pub trait VoidRequest: Request {
    /// Tells the sender whether to leave the parameters of this value out.
    fn empty(&self) -> bool;
}

/// The wire method bound to the request type `R`.
pub fn method_name<R: Request>() -> (name: &'static str)
    ensures
        name@ == R::METHOD@,
{
    R::METHOD
}

/// Looking a binding up is a function of the request type alone: whatever two
/// lookups for one type return, they return the same name.
pub proof fn lemma_method_name_stable<R: Request>(first: &'static str, second: &'static str)
    requires
        call_ensures(method_name::<R>, (), first),
        call_ensures(method_name::<R>, (), second),
    ensures
        first@ == second@,
{
}

} // verus!
