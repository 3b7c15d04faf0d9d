//! A local, file-based stand-in for a managed function execution harness.
//!
//! One run reads a single serialized event from a configured input location,
//! invokes a user-supplied handler with that event and an invocation context,
//! and produces the serialized result — the handler's response on success, or
//! a structured `{errorType, errorMsg}` document on failure — for a caller to
//! write to the configured output location.

use vstd::prelude::*;
use vstd::string::StringExecFns;

pub mod codec;
pub mod greeting;
pub mod response;
pub mod text;
pub mod types;

pub use codec::Decodable;
pub use codec::Encodable;
pub use codec::ErrorClass;
pub use codec::HandlerFault;
pub use response::Body;
pub use response::Diagnostics;
pub use response::EventError;
pub use response::EventSuccess;
pub use response::IntoResponse;
pub use types::Context;
pub use types::FatalError;
pub use types::LambdaEvent;
pub use types::ReadFailure;

use response::error_doc;
use response::wire_body;
use response::wire_status;

verus! {

/// The stable discriminant reported when the input source cannot be read.
pub open spec fn input_read_error_kind() -> Seq<char> {
    "InputReadError"@
}

/// The stable discriminant reported when the input text is not a
/// decodable request document.
pub open spec fn decode_error_kind() -> Seq<char> {
    "DecodeError"@
}

/// Where one run reads its event from and where its result is written.
#[derive(Debug, Clone, PartialEq, Eq)]
pub struct Config {
    pub input_path: String,
    pub output_path: String,
}

impl Config {
    /// The documented default locations for the event and the result.
    pub fn default() -> (c: Config)
        ensures
            c.input_path@ == "/inputs/input.json"@,
            c.output_path@ == "/outputs/output.json"@,
    {
        Config {
            input_path: String::from_str("/inputs/input.json"),
            output_path: String::from_str("/outputs/output.json"),
        }
    }
}

/// One full dispatch: obtain the input text, decode it, invoke the
/// handler, classify the outcome, and build the wire response.
///
/// A read failure or an undecodable document does not abort the run: the
/// failure itself becomes the output document, with status 500. A handler
/// error becomes a failure document carrying the error's own kind and
/// message. Only a handler success encodes the response body directly,
/// with status 200 and no wrapping key.
pub fn run_handler<F, A, T, E>(handler: F, input: Result<String, ReadFailure>) -> (r: http::Response<
    Body,
>) where
    A: Decodable,
    T: Encodable,
    E: ErrorClass,
    F: Fn(LambdaEvent<A>) -> Result<T, E>,

    requires
        forall|ev: LambdaEvent<A>| #[trigger] call_requires(handler, (ev,)),
    ensures
        input matches Err(f) ==> wire_status(r) == 500 && wire_body(r) == error_doc(
            input_read_error_kind(),
            f.message@,
        ),
        input matches Ok(tx) ==> !A::accepts(tx@) ==> wire_status(r) == 500 && wire_body(r)
            == error_doc(decode_error_kind(), A::reject_message(tx@)),
        input matches Ok(tx) ==> A::accepts(tx@) ==> exists|p: A, out: Result<T, E>|
            {
                &&& A::decodes_to(tx@, p)
                &&& #[trigger] call_ensures(
                    handler,
                    (LambdaEvent { payload: p, context: Context {  } },),
                    out,
                )
                &&& match out {
                    Ok(t) => wire_status(r) == 200 && wire_body(r) == t.encoding(),
                    Err(e) => wire_status(r) == 500 && wire_body(r) == error_doc(
                        e.kind_spec(),
                        e.message_spec(),
                    ) && e.kind_spec().len() > 0,
                }
            },
{
    let ctx = Context::new();
    let text = match input {
        Ok(t) => t,
        Err(f) => {
            let e = EventError::new("InputReadError", f.message.as_str());
            return e.into_rsp();
        },
    };
    let payload = match A::decode(text.as_str()) {
        Ok(p) => p,
        Err(msg) => {
            let e = EventError::new("DecodeError", msg.as_str());
            return e.into_rsp();
        },
    };
    let ghost gtext = text@;
    let ghost gp = payload;
    let event = LambdaEvent::new(payload, ctx);
    let ghost gevent = event;
    let outcome = handler(event);
    let ghost gout = outcome;
    proof {
        assert(gevent == (LambdaEvent { payload: gp, context: Context {  } }));
    }
    match outcome {
        Ok(t) => {
            let rsp = EventSuccess { body: t }.into_rsp();
            proof {
                assert(A::decodes_to(gtext, gp) && call_ensures(
                    handler,
                    (LambdaEvent { payload: gp, context: Context {  } },),
                    gout,
                ));
            }
            rsp
        },
        Err(err) => {
            let kind = err.kind();
            let msg = err.message();
            let e = EventError::new(kind.as_str(), msg.as_str());
            let rsp = e.into_rsp();
            proof {
                assert(A::decodes_to(gtext, gp) && call_ensures(
                    handler,
                    (LambdaEvent { payload: gp, context: Context {  } },),
                    gout,
                ));
            }
            rsp
        },
    }
}

} // verus!
