//! Errors of the session and of the auto-lock controller.

use vstd::prelude::*;
use vstd::string::*;

verus! {

/// What the session's operations fail with.
#[derive(Debug)]
pub enum FalachApiError {
    /// The operation does not fit the session's state, or its setup is unusable.
    Internal { context: String },
    /// No vault is registered under the name, which is given back as `path`.
    FileNotFound { path: String },
    /// The vault does not open with these credentials.
    AuthenticationFailed,
    /// Another process holds the vault.
    VaultContended { holder_pid: Option<u32> },
}

/// What the auto-lock controller rejects.
#[derive(Clone, Copy, PartialEq, Eq, Structural, Debug)]
pub enum SecurityError {
    ZeroIdleTimeout,
}

impl FalachApiError {
    /// The error is `Internal` with exactly this context.
    pub open spec fn is_internal(self, text: Seq<char>) -> bool {
        self matches FalachApiError::Internal { context } && context@ == text
    }

    /// The error is `FileNotFound` for exactly this name.
    pub open spec fn is_file_not_found(self, name: Seq<char>) -> bool {
        self matches FalachApiError::FileNotFound { path } && path@ == name
    }

    pub(crate) fn internal(context: &str) -> (error: FalachApiError)
        ensures
            error.is_internal(context@),
    {
        FalachApiError::Internal { context: context.to_owned() }
    }

    /// The session's error for a controller that could not be built.
    pub(crate) fn controller_init(prefix: &str, error: SecurityError) -> (res: FalachApiError)
        ensures
            res.is_internal(prefix@ + error.text()),
    {
        let mut context: String = prefix.to_owned();
        context.append(error.message());
        FalachApiError::Internal { context }
    }
}

impl SecurityError {
    /// The error in words.
    pub open spec fn text(self) -> Seq<char> {
        match self {
            SecurityError::ZeroIdleTimeout => "the idle timeout is zero"@,
        }
    }

    pub fn message(&self) -> (text: &'static str)
        ensures
            text@ == self.text(),
    {
        match self {
            SecurityError::ZeroIdleTimeout => "the idle timeout is zero",
        }
    }
}

} // verus!
