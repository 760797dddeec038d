//! The errors of the administrative operations, and the kinds that they fall
//! into.

use vstd::prelude::*;
use crate::windows::{CreateServiceError, DeleteServiceError, StartServiceError, StopServiceError};

verus! {

/// Makes `std::io::Error` known as a value that is carried through: nothing
/// is said of what it holds.
#[verifier::external_type_specification]
#[verifier::external_body]
pub struct ExIoError(std::io::Error);

/// What went wrong, whatever the platform.
#[derive(Clone, Copy, Debug, PartialEq, Eq, Structural)]
pub enum ErrorKind {
    /// The service manager could not be reached
    ManagerUnavailable,
    /// The service manager was reached and rejected the operation
    OperationRejected,
    /// A local file could not be read or written
    IoFailure,
    /// The service was not in the state that the operation needs
    AlreadyRunningOrMissing,
}

/// Errors that can occur when interfacing with systemctl
#[derive(Clone, Copy, Debug, PartialEq, Eq, Structural)]
pub enum StartStopError {
    /// Systemctl does not exist or is not callable for some reason
    NoSystemCtl,
    /// The systemctl command returned an error
    SystemCtlFailed,
}

/// Errors that can occur when creating a service
#[derive(Debug)]
pub enum CreateError {
    /// Systemctl does not exist or is not callable for some reason
    NoSystemCtl,
    /// The systemctl command returned an error
    SystemCtlFailed,
    /// Systemctl reload command failed for some reason
    SystemCtlReloadFailed,
    /// Unable to create or write to the systemctl service file
    FileIoError(std::io::Error),
    /// The service is installed already, and is left as it is
    AlreadyExists,
}

/// The error of a creation that an error of systemctl stands for.
pub open spec fn create_error_of(error: StartStopError) -> CreateError {
    match error {
        StartStopError::NoSystemCtl => CreateError::NoSystemCtl,
        StartStopError::SystemCtlFailed => CreateError::SystemCtlFailed,
    }
}

impl From<StartStopError> for CreateError {
    fn from(value: StartStopError) -> (error: Self) {
        match value {
            StartStopError::NoSystemCtl => CreateError::NoSystemCtl,
            StartStopError::SystemCtlFailed => CreateError::SystemCtlFailed,
        }
    }
}

impl vstd::std_specs::convert::FromSpecImpl<StartStopError> for CreateError {
    open spec fn obeys_from_spec() -> bool {
        true
    }

    open spec fn from_spec(value: StartStopError) -> CreateError {
        create_error_of(value)
    }
}

impl StartStopError {
    /// The kind of the error.
    pub open spec fn spec_kind(self) -> ErrorKind {
        match self {
            StartStopError::NoSystemCtl => ErrorKind::ManagerUnavailable,
            StartStopError::SystemCtlFailed => ErrorKind::OperationRejected,
        }
    }

    /// The kind of the error: systemctl that cannot be called is a manager
    /// that cannot be reached, systemctl that fails is a rejection.
    pub fn kind(&self) -> (kind: ErrorKind)
        ensures
            kind == self.spec_kind(),
    {
        match self {
            StartStopError::NoSystemCtl => ErrorKind::ManagerUnavailable,
            StartStopError::SystemCtlFailed => ErrorKind::OperationRejected,
        }
    }
}

impl CreateError {
    /// The kind of the error.
    pub open spec fn spec_kind(self) -> ErrorKind {
        match self {
            CreateError::NoSystemCtl => ErrorKind::ManagerUnavailable,
            CreateError::SystemCtlFailed => ErrorKind::OperationRejected,
            CreateError::SystemCtlReloadFailed => ErrorKind::OperationRejected,
            CreateError::FileIoError(_) => ErrorKind::IoFailure,
            CreateError::AlreadyExists => ErrorKind::OperationRejected,
        }
    }

    /// The kind of the error: systemctl that cannot be called is a manager
    /// that cannot be reached; systemctl that fails and a service that is
    /// installed already are rejections; a unit file that cannot be written
    /// is a local failure.
    pub fn kind(&self) -> (kind: ErrorKind)
        ensures
            kind == self.spec_kind(),
    {
        match self {
            CreateError::NoSystemCtl => ErrorKind::ManagerUnavailable,
            CreateError::SystemCtlFailed => ErrorKind::OperationRejected,
            CreateError::SystemCtlReloadFailed => ErrorKind::OperationRejected,
            CreateError::FileIoError(_) => ErrorKind::IoFailure,
            CreateError::AlreadyExists => ErrorKind::OperationRejected,
        }
    }
}

impl StartServiceError {
    /// The kind of the error.
    pub open spec fn spec_kind(self) -> ErrorKind {
        match self {
            StartServiceError::ManagerUnavailable(_) => ErrorKind::ManagerUnavailable,
            StartServiceError::WindowsError(_) => ErrorKind::OperationRejected,
            StartServiceError::FailedToStart(_) => ErrorKind::AlreadyRunningOrMissing,
        }
    }

    /// The kind of the error.
    pub fn kind(&self) -> (kind: ErrorKind)
        ensures
            kind == self.spec_kind(),
    {
        match self {
            StartServiceError::ManagerUnavailable(_) => ErrorKind::ManagerUnavailable,
            StartServiceError::WindowsError(_) => ErrorKind::OperationRejected,
            StartServiceError::FailedToStart(_) => ErrorKind::AlreadyRunningOrMissing,
        }
    }
}

impl StopServiceError {
    /// The kind of the error.
    pub open spec fn spec_kind(self) -> ErrorKind {
        match self {
            StopServiceError::ManagerUnavailable(_) => ErrorKind::ManagerUnavailable,
            StopServiceError::WindowsError(_) => ErrorKind::OperationRejected,
            StopServiceError::FailedToStop(_) => ErrorKind::AlreadyRunningOrMissing,
        }
    }

    /// The kind of the error.
    pub fn kind(&self) -> (kind: ErrorKind)
        ensures
            kind == self.spec_kind(),
    {
        match self {
            StopServiceError::ManagerUnavailable(_) => ErrorKind::ManagerUnavailable,
            StopServiceError::WindowsError(_) => ErrorKind::OperationRejected,
            StopServiceError::FailedToStop(_) => ErrorKind::AlreadyRunningOrMissing,
        }
    }
}

impl CreateServiceError {
    /// The kind of the error.
    pub open spec fn spec_kind(self) -> ErrorKind {
        match self {
            CreateServiceError::ManagerUnavailable(_) => ErrorKind::ManagerUnavailable,
            CreateServiceError::WindowsError(_) => ErrorKind::OperationRejected,
        }
    }

    /// The kind of the error.
    pub fn kind(&self) -> (kind: ErrorKind)
        ensures
            kind == self.spec_kind(),
    {
        match self {
            CreateServiceError::ManagerUnavailable(_) => ErrorKind::ManagerUnavailable,
            CreateServiceError::WindowsError(_) => ErrorKind::OperationRejected,
        }
    }
}

impl DeleteServiceError {
    /// The kind of the error.
    pub open spec fn spec_kind(self) -> ErrorKind {
        match self {
            DeleteServiceError::ManagerUnavailable(_) => ErrorKind::ManagerUnavailable,
            DeleteServiceError::WindowsError(_) => ErrorKind::OperationRejected,
        }
    }

    /// The kind of the error.
    pub fn kind(&self) -> (kind: ErrorKind)
        ensures
            kind == self.spec_kind(),
    {
        match self {
            DeleteServiceError::ManagerUnavailable(_) => ErrorKind::ManagerUnavailable,
            DeleteServiceError::WindowsError(_) => ErrorKind::OperationRejected,
        }
    }
}

} // verus!
