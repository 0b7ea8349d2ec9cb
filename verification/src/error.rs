//! Error taxonomy of the evaluation pipeline, and process exit statuses.
//!
//! Every failure carries its kind and a chain of messages: the outermost
//! context first, the root cause last, so a host can print `error: X`
//! followed by `caused by: Y` lines without collapsing the causes.

use vstd::prelude::*;
use vstd::string::StringSliceAdditionalSpecFns;

verus! {

/// The stage of the pipeline that a failure belongs to.
#[derive(Clone, Copy, PartialEq, Eq, Structural, Debug)]
pub enum ErrorKind {
    /// A specifier could not be resolved against its referrer.
    Resolution,
    /// A module could not be loaded: non-local scheme, unknown extension,
    /// or unreadable file.
    Load,
    /// Typed-script source could not be lowered to plain script.
    Transpile,
    /// The engine failed while running the module graph.
    Execution,
    /// The default export does not fit the requested shape.
    Shape,
    /// The environment or the startup snapshot is unusable.
    Setup,
}

/// A pipeline failure: its kind and its chain of cause messages.
#[derive(Debug, Clone)]
pub struct TsError {
    kind: ErrorKind,
    chain: Vec<Vec<u8>>,
}

impl TsError {
    pub closed spec fn kind(&self) -> ErrorKind {
        self.kind
    }

    /// The cause chain: outermost context first, root cause last.
    pub closed spec fn chain(&self) -> Seq<Seq<u8>> {
        self.chain.deep_view()
    }

    /// Build an error from its kind and its root-cause message.
    pub fn new(kind: ErrorKind, message: Vec<u8>) -> (r: TsError)
        ensures
            r.kind() == kind,
            r.chain() == seq![message@],
    {
        let mut chain: Vec<Vec<u8>> = Vec::new();
        let ghost message_view = message@;
        chain.push(message);
        proof {
            assert(chain.deep_view() =~~= seq![message_view]);
        }
        TsError { kind, chain }
    }

    /// Add one more layer of context around this error.
    pub fn wrap(self, context: Vec<u8>) -> (r: TsError)
        ensures
            r.kind() == self.kind(),
            r.chain() == seq![context@] + self.chain(),
    {
        let ghost context_view = context@;
        let ghost old_chain = self.chain.deep_view();
        let mut chain = self.chain;
        chain.insert(0, context);
        proof {
            assert(chain.deep_view() =~~= seq![context_view] + old_chain);
        }
        TsError { kind: self.kind, chain }
    }

    pub fn error_kind(&self) -> (k: ErrorKind)
        ensures
            k == self.kind(),
    {
        self.kind
    }

    /// The cause chain, for rendering.
    pub fn messages(&self) -> (r: &Vec<Vec<u8>>)
        ensures
            r.deep_view() == self.chain(),
    {
        &self.chain
    }
}

/// Outcome of one command, as the process reports it.
#[derive(Clone, Copy, PartialEq, Eq, Structural, Debug)]
pub enum ExitStatus {
    /// The command succeeded.
    Success,
    /// The command failed due to an error in the user input.
    Failure,
    /// The command failed with an unexpected error.
    Error,
    /// The command's exit status is propagated from an external command.
    External(u8),
}

/// The numeric process exit code of a status.
pub open spec fn spec_exit_code(s: ExitStatus) -> u8 {
    match s {
        ExitStatus::Success => 0,
        ExitStatus::Failure => 1,
        ExitStatus::Error => 2,
        ExitStatus::External(code) => code,
    }
}

impl ExitStatus {
    /// The numeric process exit code, executable form.
    pub fn code(&self) -> (r: u8)
        ensures
            r == spec_exit_code(*self),
    {
        match *self {
            ExitStatus::Success => 0,
            ExitStatus::Failure => 1,
            ExitStatus::Error => 2,
            ExitStatus::External(code) => code,
        }
    }
}

impl From<ExitStatus> for u8 {
    fn from(s: ExitStatus) -> (r: u8) {
        s.code()
    }
}

impl vstd::std_specs::convert::FromSpecImpl<ExitStatus> for u8 {
    open spec fn obeys_from_spec() -> bool {
        true
    }

    open spec fn from_spec(s: ExitStatus) -> u8 {
        spec_exit_code(s)
    }
}

/// The bytes of a static message, for building error chains.
pub fn text_bytes(s: &str) -> (r: Vec<u8>)
    ensures
        r@ == s.spec_bytes(),
{
    vstd::slice::slice_to_vec(s.as_bytes())
}

} // verus!
