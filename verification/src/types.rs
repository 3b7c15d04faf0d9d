use vstd::prelude::*;

verus! {

/// Per-invocation metadata handed to every handler beside the payload.
/// Empty today: a reserved extension point for data such as a deadline or
/// a request id, constructible independent of any request state.
#[derive(Debug, Clone, PartialEq)]
pub struct Context {}

impl Context {
    pub fn new() -> (c: Context)
        ensures
            c == (Context {}),
    {
        Context {}
    }
}

/// The sole argument type handlers accept: a decoded payload paired with
/// the invocation context. Created once per invocation by the dispatcher
/// and consumed exactly once by the handler.
#[derive(Debug, Clone)]
pub struct LambdaEvent<T> {
    pub payload: T,
    pub context: Context,
}

impl<T> LambdaEvent<T> {
    pub fn new(payload: T, context: Context) -> (ev: LambdaEvent<T>)
        ensures
            ev.payload == payload,
            ev.context == context,
    {
        LambdaEvent { payload, context }
    }
}

/// Why the input event could not be obtained from its source. A run
/// recovers from this locally: it reports the failure through the output
/// document instead of aborting.
#[derive(Debug, Clone)]
pub struct ReadFailure {
    pub message: String,
}

/// The one class of failure a run cannot report through an output
/// document: the result could not be delivered to its sink.
#[derive(Debug, Clone)]
pub struct FatalError {
    pub message: String,
}

} // verus!
