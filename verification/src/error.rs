//! Errors that the core reports to its caller.
use vstd::prelude::*;

verus! {

/// How an error is to be treated.
#[derive(Clone, Copy, Debug, PartialEq, Eq, Structural)]
pub enum ErrorKind {
    /// A setting that cannot be used; reported, never fatal.
    ConfigurationError,
    /// A failure of the rendering backend; what the frame drew in this tick
    /// is discarded.
    ResourceError,
    /// A mistake in setup or registration; continuing would break
    /// invariants.
    ProgrammerError,
}

/// An error of the core.
#[derive(Clone, Copy, Debug, PartialEq, Eq, Structural)]
pub enum PaddleError {
    /// The visible area has no extent along one axis.
    EmptyViewport,
    /// The game area together with its margin has no extent along one axis.
    EmptyGameArea,
    /// The rendering backend failed.
    BackendFailure,
    /// A frame was addressed whose state has not been stored.
    MissingState,
    /// A frame was addressed before the display existed.
    MissingContext,
}

impl PaddleError {
    pub open spec fn spec_kind(self) -> ErrorKind {
        match self {
            PaddleError::EmptyViewport => ErrorKind::ConfigurationError,
            PaddleError::EmptyGameArea => ErrorKind::ConfigurationError,
            PaddleError::BackendFailure => ErrorKind::ResourceError,
            PaddleError::MissingState => ErrorKind::ProgrammerError,
            PaddleError::MissingContext => ErrorKind::ProgrammerError,
        }
    }

    /// How the error is to be treated.
    #[verifier::when_used_as_spec(spec_kind)]
    pub fn kind(self) -> (r: ErrorKind)
        ensures
            r == self.spec_kind(),
    {
        match self {
            PaddleError::EmptyViewport => ErrorKind::ConfigurationError,
            PaddleError::EmptyGameArea => ErrorKind::ConfigurationError,
            PaddleError::BackendFailure => ErrorKind::ResourceError,
            PaddleError::MissingState => ErrorKind::ProgrammerError,
            PaddleError::MissingContext => ErrorKind::ProgrammerError,
        }
    }

    /// Whether the error must stop the program.
    pub fn is_fatal(self) -> (r: bool)
        ensures
            r == (self.spec_kind() == ErrorKind::ProgrammerError),
    {
        match self.kind() {
            ErrorKind::ProgrammerError => true,
            _ => false,
        }
    }
}

} // verus!
