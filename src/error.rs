//! The pipeline's error taxonomy and its two-way bridge to a generic I/O failure.
use vstd::prelude::*;

verus! {

/// The category of a generic I/O failure.
#[derive(Debug, Clone, Copy, PartialEq, Eq)]
pub enum IoErrorKind {
    NotFound,
    PermissionDenied,
    ConnectionRefused,
    ConnectionReset,
    ConnectionAborted,
    NotConnected,
    BrokenPipe,
    AlreadyExists,
    WouldBlock,
    InvalidInput,
    InvalidData,
    TimedOut,
    WriteZero,
    Interrupted,
    Unsupported,
    UnexpectedEof,
    OutOfMemory,
    /// The kind used when a pipeline error is carried inside a generic failure.
    Other,
    /// A kind that none of the variants above names.
    Uncategorized,
}

/// A corrupt or truncated zip structure.
#[derive(Debug, Clone, PartialEq, Eq)]
pub struct ZipError {
    pub message: String,
}

/// A failure of the byte-stream source (connection reset, timeout, bad status).
#[derive(Debug, Clone, PartialEq, Eq)]
pub struct RemoteError {
    pub message: String,
}

/// What a generic I/O failure carries besides its kind.
#[derive(Debug, PartialEq, Eq)]
pub enum IoCause {
    /// A plain OS-level failure with nothing embedded.
    Bare,
    /// A foreign cause, known only by its text.
    Message(String),
    /// A pipeline error that crossed a boundary which only speaks generic I/O.
    Download(Box<DownloadError>),
}

/// A generic I/O failure: a kind and an optional embedded cause.
#[derive(Debug, PartialEq, Eq)]
pub struct IoError {
    pub kind: IoErrorKind,
    pub cause: IoCause,
}

/// The error of a download-and-extract operation.
#[derive(Debug, PartialEq, Eq)]
pub enum DownloadError {
    /// Failed to extract a zip file.
    Unzip(ZipError),
    /// Failed to download from the remote.
    Remote(RemoteError),
    /// A generic I/O error.
    Io(IoError),
}

impl IoError {
    /// A failure made by this pipeline holds an embedded pipeline error only under
    /// the kind `Other`, and never one that is itself a generic failure.
    pub open spec fn wf(&self) -> bool {
        match self.cause {
            IoCause::Download(inner) => self.kind == IoErrorKind::Other && !(*inner is Io),
            _ => true,
        }
    }

    /// A plain failure of the given kind, with no embedded cause.
    pub fn bare(kind: IoErrorKind) -> (r: IoError)
        ensures
            r.kind == kind,
            r.cause == IoCause::Bare,
            r.wf(),
    {
        IoError { kind, cause: IoCause::Bare }
    }
}

impl DownloadError {
    /// A generic failure held by a pipeline error never embeds a pipeline error:
    /// unwrapping would have taken it out.
    pub open spec fn wf(&self) -> bool {
        match self {
            DownloadError::Io(e) => !(e.cause is Download),
            _ => true,
        }
    }
}

/// Recover the precise cause from a generic failure: the embedded pipeline error
/// if there is one, else the failure itself as the `Io` variant.
pub open spec fn unwrap_io(e: IoError) -> DownloadError {
    match e.cause {
        IoCause::Download(inner) => *inner,
        _ => DownloadError::Io(e),
    }
}

/// Carry a pipeline error as a generic failure: an `Io` variant gives its failure
/// back, any other error is embedded under the kind `Other`.
pub open spec fn wrap_io(e: DownloadError) -> IoError {
    match e {
        DownloadError::Io(io) => io,
        _ => IoError { kind: IoErrorKind::Other, cause: IoCause::Download(Box::new(e)) },
    }
}

impl From<IoError> for DownloadError {
    fn from(err: IoError) -> (r: DownloadError)
        ensures
            r == unwrap_io(err),
    {
        let kind = err.kind;
        match err.cause {
            IoCause::Download(inner) => *inner,
            cause => DownloadError::Io(IoError { kind, cause }),
        }
    }
}

impl vstd::std_specs::convert::FromSpecImpl<IoError> for DownloadError {
    open spec fn obeys_from_spec() -> bool {
        true
    }

    open spec fn from_spec(v: IoError) -> DownloadError {
        unwrap_io(v)
    }
}

impl From<DownloadError> for IoError {
    fn from(e: DownloadError) -> (r: IoError)
        ensures
            r == wrap_io(e),
    {
        match e {
            DownloadError::Io(io) => io,
            other => IoError { kind: IoErrorKind::Other, cause: IoCause::Download(Box::new(other)) },
        }
    }
}

impl vstd::std_specs::convert::FromSpecImpl<DownloadError> for IoError {
    open spec fn obeys_from_spec() -> bool {
        true
    }

    open spec fn from_spec(v: DownloadError) -> IoError {
        wrap_io(v)
    }
}

/// Unwrapping a well-formed generic failure gives a well-formed pipeline error,
/// and wrapping a well-formed pipeline error gives a well-formed generic failure.
pub proof fn lemma_conversions_keep_wf(d: DownloadError, e: IoError)
    requires
        d.wf(),
        e.wf(),
    ensures
        unwrap_io(e).wf(),
        wrap_io(d).wf(),
{
}

/// Wrapping a pipeline error as a generic failure and unwrapping it again gives
/// back the very same error.
pub proof fn lemma_wrap_then_unwrap(d: DownloadError)
    requires
        d.wf(),
    ensures
        unwrap_io(wrap_io(d)) == d,
{
}

/// Unwrapping a generic failure and wrapping the result again gives back the very
/// same failure; in particular a plain failure keeps its kind.
pub proof fn lemma_unwrap_then_wrap(e: IoError)
    requires
        e.wf(),
    ensures
        wrap_io(unwrap_io(e)) == e,
        e.cause == IoCause::Bare ==> wrap_io(unwrap_io(e)).kind == e.kind,
{
}

} // verus!
