//! The worked example around the dispatcher: a request that names someone
//! and a response that greets them, with a fully specified document codec.

use vstd::prelude::*;
use vstd::string::StringExecFns;

use crate::codec::Decodable;
use crate::codec::Encodable;
use crate::codec::ErrorClass;
use crate::codec::HandlerFault;
use crate::decode_error_kind;
use crate::input_read_error_kind;
use crate::response::error_doc;
use crate::response::wire_body;
use crate::response::wire_status;
use crate::response::Body;
use crate::run_handler;
use crate::text::escape_str;
use crate::text::escape_text;
use crate::text::lemma_one_string_doc_roundtrip;
use crate::text::one_string_doc;
use crate::text::parse_one_string_doc;
use crate::types::Context;
use crate::types::LambdaEvent;
use crate::types::ReadFailure;

verus! {

/// The example request: a document of the shape `{"name":"<text>"}`.
#[derive(Debug, Clone)]
pub struct Request {
    pub name: String,
}

/// The example response: a document of the shape `{"msg":"<text>"}`.
#[derive(Debug, Clone)]
pub struct Greeting {
    pub msg: String,
}

impl Decodable for Request {
    open spec fn accepts(text: Seq<char>) -> bool {
        one_string_doc("{\"name\":\""@, text) is Some
    }

    open spec fn decodes_to(text: Seq<char>, v: Self) -> bool {
        one_string_doc("{\"name\":\""@, text) == Some(v.name@)
    }

    open spec fn reject_message(text: Seq<char>) -> Seq<char> {
        "expected a document of the shape {\"name\":\"...\"}"@
    }

    fn decode(text: &str) -> (r: Result<Self, String>) {
        match parse_one_string_doc(text, "{\"name\":\"") {
            Some(name) => Ok(Request { name }),
            None => Err(String::from_str("expected a document of the shape {\"name\":\"...\"}")),
        }
    }
}

impl Encodable for Greeting {
    open spec fn encoding(&self) -> Seq<char> {
        "{\"msg\":\""@ + escape_text(self.msg@) + "\"}"@
    }

    fn encode(&self) -> (s: String) {
        let mut out = String::from_str("{\"msg\":\"");
        let escaped = escape_str(self.msg.as_str());
        out.append(escaped.as_str());
        out.append("\"}");
        proof {
            assert(out@ =~= self.encoding());
        }
        out
    }
}

impl Decodable for Greeting {
    open spec fn accepts(text: Seq<char>) -> bool {
        one_string_doc("{\"msg\":\""@, text) is Some
    }

    open spec fn decodes_to(text: Seq<char>, v: Self) -> bool {
        one_string_doc("{\"msg\":\""@, text) == Some(v.msg@)
    }

    open spec fn reject_message(text: Seq<char>) -> Seq<char> {
        "expected a document of the shape {\"msg\":\"...\"}"@
    }

    fn decode(text: &str) -> (r: Result<Self, String>) {
        match parse_one_string_doc(text, "{\"msg\":\"") {
            Some(msg) => Ok(Greeting { msg }),
            None => Err(String::from_str("expected a document of the shape {\"msg\":\"...\"}")),
        }
    }
}

/// Law: encoding a response and then decoding the result with the same
/// codec yields the original value back — the success path loses nothing.
pub proof fn lemma_response_roundtrip(v: Greeting)
    ensures
        Greeting::accepts(v.encoding()),
        Greeting::decodes_to(v.encoding(), v),
        forall|w: Greeting| Greeting::decodes_to(v.encoding(), w) ==> w.msg@ == v.msg@,
{
    reveal_strlit("{\"msg\":\"");
    reveal_strlit("\"}");
    reveal_strlit("}");
    assert(v.encoding() =~= "{\"msg\":\""@ + escape_text(v.msg@) + seq!['"'] + "}"@);
    lemma_one_string_doc_roundtrip("{\"msg\":\""@, v.msg@);
}

/// The example handler: greets whoever the request names.
pub fn my_handler(event: LambdaEvent<Request>) -> (r: Result<Greeting, HandlerFault>)
    ensures
        r matches Ok(resp) && resp.msg@ == "Hello, "@ + event.payload.name@,
{
    let command = event.payload.name;
    let msg = String::from_str("Hello, ").concat(command.as_str());
    Ok(Greeting { msg })
}

/// The view a run takes of its input outcome: the input text, or the
/// message of the read failure.
pub open spec fn input_view(input: Result<String, ReadFailure>) -> Result<Seq<char>, Seq<char>> {
    match input {
        Ok(s) => Ok(s@),
        Err(f) => Err(f.message@),
    }
}

/// What one full greeting run produces for a given input outcome: the
/// status and the document are a function of the input alone.
pub open spec fn greeting_run_post(
    input: Result<Seq<char>, Seq<char>>,
    status: u16,
    body: Seq<char>,
) -> bool {
    match input {
        Err(message) => status == 500 && body == error_doc(input_read_error_kind(), message),
        Ok(tx) => match one_string_doc("{\"name\":\""@, tx) {
            Some(name) => status == 200 && body == "{\"msg\":\""@ + escape_text("Hello, "@ + name)
                + "\"}"@,
            None => status == 500 && body == error_doc(
                decode_error_kind(),
                Request::reject_message(tx),
            ),
        },
    }
}

/// Run the example greeting handler on one input outcome.
pub fn run_greeting(input: Result<String, ReadFailure>) -> (r: http::Response<Body>)
    ensures
        greeting_run_post(input_view(input), wire_status(r), wire_body(r)),
{
    let ghost gi = input_view(input);
    let r = run_handler(my_handler, input);
    proof {
        match gi {
            Err(message) => {
            },
            Ok(tx) => {
                if Request::accepts(tx) {
                    let (p, out) = choose|p: Request, out: Result<Greeting, HandlerFault>|
                        {
                            &&& Request::decodes_to(tx, p)
                            &&& #[trigger] call_ensures(
                                my_handler,
                                (LambdaEvent { payload: p, context: Context {  } },),
                                out,
                            )
                            &&& match out {
                                Ok(t) => wire_status(r) == 200 && wire_body(r) == t.encoding(),
                                Err(e) => wire_status(r) == 500 && wire_body(r) == error_doc(
                                    e.kind_spec(),
                                    e.message_spec(),
                                ) && e.kind_spec().len() > 0,
                            }
                        };
                    assert(out matches Ok(resp) && resp.msg@ == "Hello, "@ + p.name@);
                }
            },
        }
    }
    r
}

/// Law: two runs over the same input outcome produce the same status and
/// the same output document — a run has no hidden nondeterminism.
pub proof fn lemma_greeting_run_deterministic(
    input: Result<Seq<char>, Seq<char>>,
    s1: u16,
    b1: Seq<char>,
    s2: u16,
    b2: Seq<char>,
)
    requires
        greeting_run_post(input, s1, b1),
        greeting_run_post(input, s2, b2),
    ensures
        s1 == s2,
        b1 == b2,
{
}

} // verus!
