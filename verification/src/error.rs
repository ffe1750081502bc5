//! The conditions that the service tells apart.

use vstd::prelude::*;
use crate::command::{Command, CommandView};

verus! {

/// What can go wrong. Only `BackendUnavailable` stops the service; the
/// others are absorbed where they are found, and reported so that they can
/// be logged.
#[derive(Debug, PartialEq, Eq)]
pub enum ServiceError {
    /// The transport session could not be set up.
    BackendUnavailable,
    /// A command failed or timed out. The state is read anew by the next
    /// refresh.
    CommandFailed(Command),
    /// Some device did not report all its fields, and got defaults.
    PartialEnumeration,
    /// The stored settings were missing or unreadable, and the defaults
    /// were taken.
    SettingsLoadFailure,
}

/// What a `ServiceError` holds, as mathematical values.
pub enum ServiceErrorView {
    BackendUnavailable,
    CommandFailed(CommandView),
    PartialEnumeration,
    SettingsLoadFailure,
}

impl View for ServiceError {
    type V = ServiceErrorView;

    open spec fn view(&self) -> ServiceErrorView {
        match self {
            ServiceError::BackendUnavailable => ServiceErrorView::BackendUnavailable,
            ServiceError::CommandFailed(command) => ServiceErrorView::CommandFailed(command@),
            ServiceError::PartialEnumeration => ServiceErrorView::PartialEnumeration,
            ServiceError::SettingsLoadFailure => ServiceErrorView::SettingsLoadFailure,
        }
    }
}

impl ServiceError {
    /// Whether the service cannot run after this error.
    pub fn is_fatal(&self) -> (fatal: bool)
        ensures
            fatal == (self@ == ServiceErrorView::BackendUnavailable),
    {
        match self {
            ServiceError::BackendUnavailable => true,
            _ => false,
        }
    }
}

impl Clone for ServiceError {
    fn clone(&self) -> (copy: Self)
        ensures
            copy == *self,
    {
        match self {
            ServiceError::BackendUnavailable => ServiceError::BackendUnavailable,
            ServiceError::CommandFailed(command) => ServiceError::CommandFailed(command.clone()),
            ServiceError::PartialEnumeration => ServiceError::PartialEnumeration,
            ServiceError::SettingsLoadFailure => ServiceError::SettingsLoadFailure,
        }
    }
}

} // verus!
