//! Errors with causal chains.
//!
//! A failure anywhere in the daemon carries its originating causes: an
//! error wraps at most one predecessor, so a chain of wrappings records the
//! full causal history. The driving shell logs the whole chain at critical
//! severity before terminating; nothing here is recoverable except by
//! policy stated elsewhere.

use vstd::prelude::*;

verus! {

/// The kinds of failure the daemon distinguishes.
#[derive(Debug, Clone, Copy, PartialEq, Eq, Structural)]
pub enum ErrorKind {
    /// Runtime or initialization failure.
    Runtime,
    /// Failure of the inter-process signal bus service.
    BusService,
    /// Failure to run an external handler subprocess.
    Process,
    /// Hardware input/output failure.
    DeviceIo,
}

/// An error value: its kind, a human-readable description, and the error
/// that caused it, if any.
pub struct Error {
    kind: ErrorKind,
    message: String,
    cause: Option<Box<Error>>,
}

/// The causal chain of an error, outermost kind first.
pub open spec fn spec_chain(e: Error) -> Seq<ErrorKind>
    decreases e,
{
    match e.spec_cause() {
        Some(c) => seq![e.spec_kind()].add(spec_chain(*c)),
        None => seq![e.spec_kind()],
    }
}

impl Error {
    /// The error's kind.
    pub closed spec fn spec_kind(&self) -> ErrorKind {
        self.kind
    }

    /// The error's description.
    pub closed spec fn spec_message(&self) -> Seq<char> {
        self.message@
    }

    /// The error's direct cause, if any.
    pub closed spec fn spec_cause(&self) -> Option<Box<Error>> {
        self.cause
    }

    /// A root error with no cause.
    pub fn new(kind: ErrorKind, message: String) -> (r: Error)
        ensures
            r.spec_kind() == kind,
            r.spec_message() == message@,
            r.spec_cause() is None,
            spec_chain(r) == seq![kind],
    {
        let r = Error { kind, message, cause: None };
        assert(spec_chain(r) =~= seq![kind]);
        r
    }

    /// Wraps `cause`: the new error is of kind `kind` and records `cause`
    /// as its origin, extending the causal chain by one.
    pub fn with(cause: Error, kind: ErrorKind, message: String) -> (r: Error)
        ensures
            r.spec_kind() == kind,
            r.spec_message() == message@,
            r.spec_cause() matches Some(c) && *c == cause,
            spec_chain(r) == seq![kind].add(spec_chain(cause)),
    {
        let ghost chain = spec_chain(cause);
        let r = Error { kind, message, cause: Some(Box::new(cause)) };
        assert(spec_chain(r) =~= seq![kind].add(chain));
        r
    }

    /// The error's kind.
    pub fn kind(&self) -> (k: ErrorKind)
        ensures
            k == self.spec_kind(),
    {
        self.kind
    }

    /// The error's description.
    pub fn message(&self) -> (m: &String)
        ensures
            m@ == self.spec_message(),
    {
        &self.message
    }

    /// The kinds along the causal chain, outermost first: what a logger
    /// walks when it reports the full history of a failure.
    pub fn chain_kinds(&self) -> (r: Vec<ErrorKind>)
        ensures
            r@ == spec_chain(*self),
        decreases *self,
    {
        match &self.cause {
            Some(c) => {
                let rest = c.chain_kinds();
                let mut r: Vec<ErrorKind> = Vec::new();
                r.push(self.kind);
                let mut i: usize = 0;
                while i < rest.len()
                    invariant
                        i <= rest.len(),
                        r@ == seq![self.kind].add(rest@.take(i as int)),
                    decreases rest.len() - i,
                {
                    r.push(rest[i]);
                    i = i + 1;
                    assert(seq![self.kind].add(rest@.take(i - 1)).push(rest@[i - 1]) =~= seq![
                        self.kind,
                    ].add(rest@.take(i as int)));
                }
                assert(rest@.take(rest@.len() as int) =~= rest@);
                r
            },
            None => {
                let mut r: Vec<ErrorKind> = Vec::new();
                r.push(self.kind);
                assert(r@ =~= spec_chain(*self));
                r
            },
        }
    }
}

} // verus!
