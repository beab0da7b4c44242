//! Errors of the numeric layers: a kind, a message, and an identifier that
//! tells one occurrence from another.
use vstd::prelude::*;

verus! {

/// What went wrong.
#[derive(Clone, Copy, Debug, PartialEq, Eq, Hash, PartialOrd, Ord, Structural)]
pub enum ErrorKind {
    /// Invalid parameters of a probability distribution.
    Distribution,
    /// A singular matrix where an inverse was needed.
    LinAlg,
    /// A prediction that could not be made.
    Predict,
    /// A dimension mismatch.
    Shape,
    Unknown,
}

impl ErrorKind {
    pub open spec fn spec_name(self) -> Seq<char> {
        match self {
            ErrorKind::Distribution => "distribution"@,
            ErrorKind::LinAlg => "linalg"@,
            ErrorKind::Predict => "predict"@,
            ErrorKind::Shape => "shape"@,
            ErrorKind::Unknown => "unknown"@,
        }
    }

    /// The lowercase name of the kind.
    pub fn as_str(&self) -> (r: &'static str)
        ensures
            r@ == self.spec_name(),
    {
        match self {
            ErrorKind::Distribution => "distribution",
            ErrorKind::LinAlg => "linalg",
            ErrorKind::Predict => "predict",
            ErrorKind::Shape => "shape",
            ErrorKind::Unknown => "unknown",
        }
    }
}

/// A character among `0`-`9` and `a`-`f`.
pub open spec fn is_lower_hex_digit(c: char) -> bool {
    ('0' <= c && c <= '9') || ('a' <= c && c <= 'f')
}

/// Relies on `rand::random::<u128>`, as ndarray-rand re-exports it: a value
/// drawn from the thread-local generator, written as 32 lowercase hex
/// digits.
#[verifier::external_body]
fn fresh_id() -> (r: String)
    ensures
        r@.len() == 32,
        forall|k: int| 0 <= k < 32 ==> is_lower_hex_digit(#[trigger] r@[k]),
{
    format!("{:032x}", ndarray_rand::rand::random::<u128>())
}

/// An error with a kind, a message and a random identifier.
#[derive(Clone, Debug, PartialEq, Eq, Hash, PartialOrd, Ord)]
pub struct Error {
    id: String,
    kind: ErrorKind,
    message: String,
}

impl Error {
    pub closed spec fn spec_id(self) -> Seq<char> {
        self.id@
    }

    pub closed spec fn spec_kind(self) -> ErrorKind {
        self.kind
    }

    pub closed spec fn spec_message(self) -> Seq<char> {
        self.message@
    }

    /// A new error with a fresh identifier.
    pub fn new(kind: ErrorKind, message: &str) -> (r: Self)
        ensures
            r.spec_kind() == kind,
            r.spec_message() == message@,
            r.spec_id().len() == 32,
            forall|k: int| 0 <= k < 32 ==> is_lower_hex_digit(#[trigger] r.spec_id()[k]),
    {
        Error { id: fresh_id(), kind, message: String::from_str(message) }
    }

    /// A new error of the given kind with an empty message.
    pub fn from_kind(kind: ErrorKind) -> (r: Self)
        ensures
            r.spec_kind() == kind,
            r.spec_message() == Seq::<char>::empty(),
            r.spec_id().len() == 32,
            forall|k: int| 0 <= k < 32 ==> is_lower_hex_digit(#[trigger] r.spec_id()[k]),
    {
        Error { id: fresh_id(), kind, message: String::new() }
    }

    pub fn id(&self) -> (r: &str)
        ensures
            r@ == self.spec_id(),
    {
        self.id.as_str()
    }

    pub fn kind(&self) -> (r: &ErrorKind)
        ensures
            *r == self.spec_kind(),
    {
        &self.kind
    }

    pub fn message(&self) -> (r: &str)
        ensures
            r@ == self.spec_message(),
    {
        self.message.as_str()
    }

    /// The same error, identifier included, with another message.
    pub fn with_message(self, message: &str) -> (r: Self)
        ensures
            r.spec_id() == self.spec_id(),
            r.spec_kind() == self.spec_kind(),
            r.spec_message() == message@,
    {
        Error { message: String::from_str(message), ..self }
    }

    /// The error as text: the kind, a colon and a space, and the message.
    pub fn describe(&self) -> (r: String)
        ensures
            r@ == self.spec_kind().spec_name() + ": "@ + self.spec_message(),
    {
        let mut s = String::from_str(self.kind.as_str());
        s.append(": ");
        s.append(self.message.as_str());
        s
    }
}

} // verus!
