//! The outcomes that the library reports as failures.

use vstd::prelude::*;

verus! {

/// Why an operation of this library did not succeed.
#[derive(Debug, PartialEq, Eq)]
pub enum CopilotError {
    /// The authorization server could not be reached.
    NetworkError,
    /// The authorization server answered with something that is not a
    /// usable response.
    ProtocolError,
    /// The device code ran out before the user authorized it.
    FlowExpired,
    /// The user refused the authorization.
    UserDenied,
    /// The flow ended for the reason given.
    FlowFailed(String),
    /// The operation is not allowed in the flow's current phase.
    InvalidState,
    /// The user already has a flow that is waiting for authorization.
    FlowAlreadyInProgress,
    /// The configuration names a port or an account type that is not allowed.
    InvalidConfig,
    /// No credential is stored for the user.
    NotFound,
    /// The storage behind the credential store failed.
    StorageError,
}

/// A `CopilotError` with its text as a character sequence.
pub enum ErrorView {
    NetworkError,
    ProtocolError,
    FlowExpired,
    UserDenied,
    FlowFailed(Seq<char>),
    InvalidState,
    FlowAlreadyInProgress,
    InvalidConfig,
    NotFound,
    StorageError,
}

impl View for CopilotError {
    type V = ErrorView;

    open spec fn view(&self) -> ErrorView {
        match self {
            CopilotError::NetworkError => ErrorView::NetworkError,
            CopilotError::ProtocolError => ErrorView::ProtocolError,
            CopilotError::FlowExpired => ErrorView::FlowExpired,
            CopilotError::UserDenied => ErrorView::UserDenied,
            CopilotError::FlowFailed(reason) => ErrorView::FlowFailed(reason@),
            CopilotError::InvalidState => ErrorView::InvalidState,
            CopilotError::FlowAlreadyInProgress => ErrorView::FlowAlreadyInProgress,
            CopilotError::InvalidConfig => ErrorView::InvalidConfig,
            CopilotError::NotFound => ErrorView::NotFound,
            CopilotError::StorageError => ErrorView::StorageError,
        }
    }
}

impl Clone for CopilotError {
    fn clone(&self) -> (copy: Self)
        ensures
            copy@ == self@,
    {
        match self {
            CopilotError::NetworkError => CopilotError::NetworkError,
            CopilotError::ProtocolError => CopilotError::ProtocolError,
            CopilotError::FlowExpired => CopilotError::FlowExpired,
            CopilotError::UserDenied => CopilotError::UserDenied,
            CopilotError::FlowFailed(reason) => CopilotError::FlowFailed(reason.clone()),
            CopilotError::InvalidState => CopilotError::InvalidState,
            CopilotError::FlowAlreadyInProgress => CopilotError::FlowAlreadyInProgress,
            CopilotError::InvalidConfig => CopilotError::InvalidConfig,
            CopilotError::NotFound => CopilotError::NotFound,
            CopilotError::StorageError => CopilotError::StorageError,
        }
    }
}

/// The view of a result: the view of what it holds on either side.
pub open spec fn view_result<T: View, E: View>(r: Result<T, E>) -> Result<T::V, E::V> {
    match r {
        Ok(value) => Ok(value@),
        Err(error) => Err(error@),
    }
}

} // verus!
