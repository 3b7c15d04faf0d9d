//! The two terminal shapes a dispatch can produce — success and failure —
//! and how each is turned into a wire response with its fixed status code.

use vstd::prelude::*;
use vstd::string::StringExecFns;

use crate::codec::Encodable;
use crate::text::escape_text;
use crate::text::escape_str;
use crate::text::scan_quoted;
use crate::text::lemma_scan_escaped;

verus! {

/// The body type of a wire response document.
pub type Body = String;

// The wire response type is opaque to the verifier: declare it, and give
// names to the two things the contracts speak of — its status code and
// the document it carries.
#[verifier::external_type_specification]
#[verifier::external_body]
#[verifier::reject_recursive_types(T)]
pub struct ExResponse<T>(http::Response<T>);

/// The status code a wire response was built with.
pub uninterp spec fn wire_status(r: http::Response<Body>) -> u16;

/// The document a wire response carries as its body.
pub uninterp spec fn wire_body(r: http::Response<Body>) -> Seq<char>;

/// Relies on http::Response::builder, Builder::status and Builder::body:
/// with a status code inside 100..=999 the builder cannot fail, and the
/// response carries exactly the given status and body.
#[verifier::external_body]
fn build_wire(status: u16, body: String) -> (r: http::Response<Body>)
    requires
        status == 200 || status == 500,
    ensures
        wire_status(r) == status,
        wire_body(r) == body@,
{
    http::Response::builder().status(status).body(body).unwrap()
}

/// The wire document that reports a failed invocation: the stable,
/// camel-cased field names, each value escaped.
pub open spec fn error_doc(error_type: Seq<char>, error_msg: Seq<char>) -> Seq<char> {
    "{\"errorType\":\""@ + escape_text(error_type) + "\",\"errorMsg\":\""@ + escape_text(error_msg)
        + "\"}"@
}

/// Build the failure document for one diagnostic.
pub fn error_document(error_type: &str, error_msg: &str) -> (out: String)
    ensures
        out@ == error_doc(error_type@, error_msg@),
{
    let mut out = String::from_str("{\"errorType\":\"");
    let et = escape_str(error_type);
    out.append(et.as_str());
    out.append("\",\"errorMsg\":\"");
    let em = escape_str(error_msg);
    out.append(em.as_str());
    out.append("\"}");
    proof {
        assert(out@ =~= error_doc(error_type@, error_msg@));
    }
    out
}

/// Read a failure document back: its error type and message, when the
/// text has exactly the failure shape.
pub open spec fn parsed_error_doc(text: Seq<char>) -> Option<(Seq<char>, Seq<char>)> {
    let opening = "{\"errorType\":\""@;
    let separator = ",\"errorMsg\":\""@;
    if text.len() >= opening.len() && text.subrange(0, opening.len() as int) == opening {
        match scan_quoted(text.skip(opening.len() as int)) {
            Some(q) => if q.1.len() >= separator.len() && q.1.subrange(
                0,
                separator.len() as int,
            ) == separator {
                match scan_quoted(q.1.skip(separator.len() as int)) {
                    Some(q2) => if q2.1 == "}"@ {
                        Some((q.0, q2.0))
                    } else {
                        None
                    },
                    None => None,
                }
            } else {
                None
            },
            None => None,
        }
    } else {
        None
    }
}

/// Law: a failure document is read back as exactly the error type and the
/// message it was built from — the error report loses nothing.
pub proof fn lemma_error_doc_roundtrip(error_type: Seq<char>, error_msg: Seq<char>)
    ensures
        parsed_error_doc(error_doc(error_type, error_msg)) == Some((error_type, error_msg)),
{
    reveal_strlit("{\"errorType\":\"");
    reveal_strlit("\",\"errorMsg\":\"");
    reveal_strlit(",\"errorMsg\":\"");
    reveal_strlit("\"}");
    reveal_strlit("}");
    let opening = "{\"errorType\":\""@;
    let separator = ",\"errorMsg\":\""@;
    let text = error_doc(error_type, error_msg);
    let rest1 = separator + escape_text(error_msg) + seq!['"'] + "}"@;
    assert(text.subrange(0, opening.len() as int) =~= opening);
    assert(text.skip(opening.len() as int) =~= escape_text(error_type) + seq!['"'] + rest1);
    lemma_scan_escaped(error_type, rest1);
    assert(rest1.subrange(0, separator.len() as int) =~= separator);
    assert(rest1.skip(separator.len() as int) =~= escape_text(error_msg) + seq!['"'] + "}"@);
    lemma_scan_escaped(error_msg, "}"@);
}

/// The two terminal shapes of a dispatch, each turned into a wire
/// response. The status mapping is fixed: success encodes with status
/// 200, failure with status 500.
pub trait IntoResponse {
    /// The status code the wire response will carry.
    spec fn rsp_status(&self) -> u16;

    /// The document the wire response will carry.
    spec fn rsp_body(&self) -> Seq<char>;

    /// Build the wire response.
    fn into_rsp(self) -> (r: http::Response<Body>)
        ensures
            wire_status(r) == self.rsp_status(),
            wire_body(r) == self.rsp_body(),;
}

/// The success envelope: the handler's response, encoded as-is with no
/// wrapping key.
#[derive(Debug, Eq, PartialEq, Clone)]
pub struct EventSuccess<T> {
    pub body: T,
}

impl<T: Encodable> IntoResponse for EventSuccess<T> {
    open spec fn rsp_status(&self) -> u16 {
        200
    }

    open spec fn rsp_body(&self) -> Seq<char> {
        self.body.encoding()
    }

    fn into_rsp(self) -> (r: http::Response<Body>) {
        let doc = self.body.encode();
        build_wire(200, doc)
    }
}

/// The stable, camel-cased fields of a failure document.
#[derive(Debug, Eq, PartialEq, Clone)]
pub struct Diagnostics {
    pub error_type: String,
    pub error_msg: String,
}

/// The failure envelope: a classified error and its rendered message.
#[derive(Debug, Eq, PartialEq, Clone)]
pub struct EventError {
    pub diagnostic: Diagnostics,
}

impl EventError {
    pub fn new(error_type: &str, error_msg: &str) -> (e: EventError)
        ensures
            e.diagnostic.error_type@ == error_type@,
            e.diagnostic.error_msg@ == error_msg@,
    {
        EventError {
            diagnostic: Diagnostics {
                error_type: String::from_str(error_type),
                error_msg: String::from_str(error_msg),
            },
        }
    }
}

impl IntoResponse for EventError {
    open spec fn rsp_status(&self) -> u16 {
        500
    }

    open spec fn rsp_body(&self) -> Seq<char> {
        error_doc(self.diagnostic.error_type@, self.diagnostic.error_msg@)
    }

    fn into_rsp(self) -> (r: http::Response<Body>) {
        let doc = error_document(self.diagnostic.error_type.as_str(), self.diagnostic.error_msg.as_str());
        build_wire(500, doc)
    }
}

} // verus!
