use vstd::prelude::*;

verus! {

/// The failure classes of one execution.
#[derive(Clone, Copy, Debug, PartialEq, Eq, Structural)]
pub enum ErrorKind {
    UnsupportedLanguage,
    DaemonConnectionError,
    SandboxCreateError,
    SandboxStartError,
    ExecutionTimeout,
    ExecutionFailed,
    SandboxRemoveError,
}

/// A failure together with its context: the rejected identifier, the
/// daemon's message, or the deadline that passed.
#[derive(Debug, PartialEq, Eq)]
pub enum SandboxError {
    UnsupportedLanguage { language: String },
    DaemonConnectionError { detail: String },
    SandboxCreateError { detail: String },
    SandboxStartError { detail: String },
    ExecutionTimeout { seconds: u64 },
    ExecutionFailed { detail: String },
    SandboxRemoveError { detail: String },
}

/// Mathematical model of a [`SandboxError`].
pub ghost enum SandboxErrorView {
    UnsupportedLanguage { language: Seq<char> },
    DaemonConnectionError { detail: Seq<char> },
    SandboxCreateError { detail: Seq<char> },
    SandboxStartError { detail: Seq<char> },
    ExecutionTimeout { seconds: u64 },
    ExecutionFailed { detail: Seq<char> },
    SandboxRemoveError { detail: Seq<char> },
}

impl SandboxErrorView {
    pub open spec fn kind(self) -> ErrorKind {
        match self {
            SandboxErrorView::UnsupportedLanguage { .. } => ErrorKind::UnsupportedLanguage,
            SandboxErrorView::DaemonConnectionError { .. } => ErrorKind::DaemonConnectionError,
            SandboxErrorView::SandboxCreateError { .. } => ErrorKind::SandboxCreateError,
            SandboxErrorView::SandboxStartError { .. } => ErrorKind::SandboxStartError,
            SandboxErrorView::ExecutionTimeout { .. } => ErrorKind::ExecutionTimeout,
            SandboxErrorView::ExecutionFailed { .. } => ErrorKind::ExecutionFailed,
            SandboxErrorView::SandboxRemoveError { .. } => ErrorKind::SandboxRemoveError,
        }
    }
}

impl View for SandboxError {
    type V = SandboxErrorView;

    open spec fn view(&self) -> SandboxErrorView {
        match self {
            SandboxError::UnsupportedLanguage { language } => SandboxErrorView::UnsupportedLanguage {
                language: language@,
            },
            SandboxError::DaemonConnectionError { detail } => SandboxErrorView::DaemonConnectionError {
                detail: detail@,
            },
            SandboxError::SandboxCreateError { detail } => SandboxErrorView::SandboxCreateError {
                detail: detail@,
            },
            SandboxError::SandboxStartError { detail } => SandboxErrorView::SandboxStartError {
                detail: detail@,
            },
            SandboxError::ExecutionTimeout { seconds } => SandboxErrorView::ExecutionTimeout {
                seconds: *seconds,
            },
            SandboxError::ExecutionFailed { detail } => SandboxErrorView::ExecutionFailed {
                detail: detail@,
            },
            SandboxError::SandboxRemoveError { detail } => SandboxErrorView::SandboxRemoveError {
                detail: detail@,
            },
        }
    }
}

impl SandboxError {
    /// The class this failure belongs to.
    pub fn kind(&self) -> (k: ErrorKind)
        ensures
            k == self@.kind(),
    {
        match self {
            SandboxError::UnsupportedLanguage { .. } => ErrorKind::UnsupportedLanguage,
            SandboxError::DaemonConnectionError { .. } => ErrorKind::DaemonConnectionError,
            SandboxError::SandboxCreateError { .. } => ErrorKind::SandboxCreateError,
            SandboxError::SandboxStartError { .. } => ErrorKind::SandboxStartError,
            SandboxError::ExecutionTimeout { .. } => ErrorKind::ExecutionTimeout,
            SandboxError::ExecutionFailed { .. } => ErrorKind::ExecutionFailed,
            SandboxError::SandboxRemoveError { .. } => ErrorKind::SandboxRemoveError,
        }
    }

    /// Whether a sandbox existed when this failure was decided.
    pub fn sandbox_existed(&self) -> (b: bool)
        ensures
            b == kind_follows_create(self@.kind()),
    {
        match self {
            SandboxError::SandboxStartError { .. } => true,
            SandboxError::ExecutionTimeout { .. } => true,
            SandboxError::ExecutionFailed { .. } => true,
            SandboxError::SandboxRemoveError { .. } => true,
            _ => false,
        }
    }
}

/// The failure classes that can only arise once a sandbox has been created.
pub open spec fn kind_follows_create(k: ErrorKind) -> bool {
    k == ErrorKind::SandboxStartError || k == ErrorKind::ExecutionTimeout || k
        == ErrorKind::ExecutionFailed || k == ErrorKind::SandboxRemoveError
}

} // verus!
