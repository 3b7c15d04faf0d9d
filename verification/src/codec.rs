use vstd::prelude::*;
use vstd::string::StringExecFns;

verus! {

/// The "decodable from a serialized document" capability: a request type
/// the dispatcher can decode from the raw input text.
pub trait Decodable: Sized {
    /// Which documents decode successfully into this type.
    spec fn accepts(text: Seq<char>) -> bool;

    /// What it means for `v` to be the decoding of `text`.
    spec fn decodes_to(text: Seq<char>, v: Self) -> bool;

    /// The diagnostic a rejected document is reported with.
    spec fn reject_message(text: Seq<char>) -> Seq<char>;

    /// Decode one document; a rejected document comes back as a diagnostic
    /// message determined by the document alone.
    fn decode(text: &str) -> (r: Result<Self, String>)
        ensures
            r matches Ok(v) ==> Self::accepts(text@) && Self::decodes_to(text@, v),
            r matches Err(m) ==> !Self::accepts(text@) && m@ == Self::reject_message(text@),;
}

/// The "encodable into a serialized document" capability: a response type
/// the dispatcher can turn into the output document. Encoding is total and
/// pure: it is a function of the value alone.
pub trait Encodable {
    /// The document this value encodes to.
    spec fn encoding(&self) -> Seq<char>;

    /// Encode this value.
    fn encode(&self) -> (s: String)
        ensures
            s@ == self.encoding(),;
}

/// The "classifiable error" capability: a handler error that names its own
/// kind with a stable, non-empty discriminant and renders its own message.
pub trait ErrorClass {
    /// The stable identifier of this error's kind.
    spec fn kind_spec(&self) -> Seq<char>;

    /// The rendered message of this error.
    spec fn message_spec(&self) -> Seq<char>;

    /// The stable identifier of this error's kind; never empty.
    fn kind(&self) -> (s: String)
        ensures
            s@ == self.kind_spec(),
            s@.len() > 0,;

    /// A human-readable rendering of the error.
    fn message(&self) -> (s: String)
        ensures
            s@ == self.message_spec(),;
}

/// A ready-made classified error for handlers that do not carry an error
/// type of their own. An empty kind falls back to a fixed discriminant so
/// that the reported kind is never empty.
#[derive(Debug, Clone)]
pub struct HandlerFault {
    kind: String,
    message: String,
}

impl HandlerFault {
    pub fn new(kind: String, message: String) -> (f: HandlerFault)
        ensures
            f.kind_spec() == if kind@.len() == 0 { "HandlerError"@ } else { kind@ },
            f.message_spec() == message@,
    {
        HandlerFault { kind, message }
    }
}

impl ErrorClass for HandlerFault {
    closed spec fn kind_spec(&self) -> Seq<char> {
        if self.kind@.len() == 0 {
            "HandlerError"@
        } else {
            self.kind@
        }
    }

    closed spec fn message_spec(&self) -> Seq<char> {
        self.message@
    }

    fn kind(&self) -> (s: String) {
        if self.kind.as_str().is_empty() {
            proof {
                reveal_strlit("HandlerError");
            }
            String::from_str("HandlerError")
        } else {
            self.kind.clone()
        }
    }

    fn message(&self) -> (s: String) {
        self.message.clone()
    }
}

} // verus!
