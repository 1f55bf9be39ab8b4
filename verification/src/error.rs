use vstd::prelude::*;

verus! {

/// The ways in which the manager can fail.
#[derive(Clone, Copy, Debug, PartialEq, Eq, Structural)]
pub enum Error {
    /// The link to the display server is unusable.
    ConnectionError,
    /// A program could not be launched; the action had no effect.
    SpawnError,
    /// An action named a workspace that does not exist.
    WorkspaceIndexOutOfRange,
    /// A batch of outgoing requests did not reach the display server.
    RequestFlushError,
}

impl Error {
    /// Whether the error ends the event loop. A lost connection does, and so
    /// does a workspace index out of range, which only a defective
    /// configuration can produce. A failed launch or flush does not.
    pub open spec fn fatal(self) -> bool {
        self == Error::ConnectionError || self == Error::WorkspaceIndexOutOfRange
    }

    /// Computes `fatal`.
    pub fn is_fatal(&self) -> (fatal: bool)
        ensures
            fatal == self.fatal(),
    {
        match self {
            Error::ConnectionError => true,
            Error::WorkspaceIndexOutOfRange => true,
            Error::SpawnError => false,
            Error::RequestFlushError => false,
        }
    }

    /// A short description of the error.
    pub fn message(&self) -> (text: &'static str)
        ensures
            text@ == self.description(),
    {
        match self {
            Error::ConnectionError => "display server connection lost",
            Error::SpawnError => "program could not be launched",
            Error::WorkspaceIndexOutOfRange => "workspace index out of range",
            Error::RequestFlushError => "requests could not be flushed",
        }
    }

    /// The text of `message`.
    pub open spec fn description(self) -> Seq<char> {
        match self {
            Error::ConnectionError => "display server connection lost"@,
            Error::SpawnError => "program could not be launched"@,
            Error::WorkspaceIndexOutOfRange => "workspace index out of range"@,
            Error::RequestFlushError => "requests could not be flushed"@,
        }
    }
}

} // verus!
