//! General errors of the toolkit, stamped with the time they were last
//! changed.
use vstd::prelude::*;
use crate::clock::now;

verus! {

/// The kind of a general error.
#[derive(Clone, Debug, PartialEq, Eq, Hash, PartialOrd, Ord)]
pub enum Errors {
    Async,
    Connection,
    Error(String),
    Execution,
    IO,
    Process,
    Runtime,
    Syntax,
    Unknown,
}

impl Default for Errors {
    fn default() -> (r: Self)
        ensures
            r matches Errors::Error(s) && s@ == Seq::<char>::empty(),
    {
        Errors::Error(String::new())
    }
}

impl Errors {
    pub open spec fn spec_name(self) -> Seq<char> {
        match self {
            Errors::Async => "async"@,
            Errors::Connection => "connection"@,
            Errors::Error(_) => "error"@,
            Errors::Execution => "execution"@,
            Errors::IO => "io"@,
            Errors::Process => "process"@,
            Errors::Runtime => "runtime"@,
            Errors::Syntax => "syntax"@,
            Errors::Unknown => "unknown"@,
        }
    }

    /// The lowercase name of the kind.
    pub fn as_str(&self) -> (r: &'static str)
        ensures
            r@ == self.spec_name(),
    {
        match self {
            Errors::Async => "async",
            Errors::Connection => "connection",
            Errors::Error(_) => "error",
            Errors::Execution => "execution",
            Errors::IO => "io",
            Errors::Process => "process",
            Errors::Runtime => "runtime",
            Errors::Syntax => "syntax",
            Errors::Unknown => "unknown",
        }
    }
}

/// A general error: its kind, a message, and when it was last changed, in
/// milliseconds since the Unix epoch.
#[derive(Clone, Debug, Default, PartialEq, Eq, Hash, PartialOrd, Ord)]
pub struct Error {
    pub kind: Errors,
    pub message: String,
    pub ts: u128,
}

impl Error {
    pub fn new(kind: Errors, message: String) -> (r: Self)
        ensures
            r.kind == kind,
            r.message == message,
    {
        let ts = now();
        Error { kind, message, ts }
    }

    pub fn kind(&self) -> (r: &Errors)
        ensures
            *r == self.kind,
    {
        &self.kind
    }

    pub fn message(&self) -> (r: &str)
        ensures
            r@ == self.message@,
    {
        self.message.as_str()
    }

    pub fn ts(&self) -> (r: u128)
        ensures
            r == self.ts,
    {
        self.ts
    }

    /// Replaces the kind and stamps the error with the current time.
    pub fn set_kind(&mut self, kind: Errors)
        ensures
            final(self).kind == kind,
            final(self).message == old(self).message,
    {
        self.kind = kind;
        self.on_update();
    }

    /// Replaces the message and stamps the error with the current time.
    pub fn set_message(&mut self, message: String)
        ensures
            final(self).kind == old(self).kind,
            final(self).message == message,
    {
        self.message = message;
        self.on_update();
    }

    pub fn with_kind(self, kind: Errors) -> (r: Self)
        ensures
            r == (Error { kind, ..self }),
    {
        Error { kind, ..self }
    }

    pub fn with_message(self, message: String) -> (r: Self)
        ensures
            r == (Error { message, ..self }),
    {
        Error { message, ..self }
    }

    fn on_update(&mut self)
        ensures
            final(self).kind == old(self).kind,
            final(self).message == old(self).message,
    {
        self.ts = now();
    }

    /// The error as text: `Error: ` followed by the message.
    pub fn describe(&self) -> (r: String)
        ensures
            r@ == "Error: "@ + self.message@,
    {
        let mut s = String::from_str("Error: ");
        s.append(self.message.as_str());
        s
    }
}

} // verus!
