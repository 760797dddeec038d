//! Administration of a service on Android, where there is no service manager
//! to turn to: no service exists, and none can be created, started, stopped
//! or deleted.

use vstd::prelude::*;
use crate::error::{CreateError, StartStopError};
use crate::linux::ServiceConfig;

verus! {

/// The error of a file that is not there.
///
/// Calls `std::io::Error::from` on `std::io::ErrorKind::NotFound`. Nothing is
/// claimed of the error that comes back.
#[verifier::external_body]
fn not_found() -> std::io::Error {
    std::io::Error::from(std::io::ErrorKind::NotFound)
}

/// Represents a service on the system
#[derive(Debug, PartialEq, Eq)]
pub struct Service {
    /// The name of the service, as known by the operating system
    name: String,
}

impl View for Service {
    type V = Seq<char>;

    closed spec fn view(&self) -> Seq<char> {
        self.name@
    }
}

impl Service {
    /// Construct a new self
    pub fn new(name: String) -> (service: Self)
        ensures
            service@ == name@,
    {
        Service { name }
    }

    /// The name of the service.
    pub fn name(&self) -> (name: &str)
        ensures
            name@ == self@,
    {
        self.name.as_str()
    }

    /// Does the service already exist? It never does.
    pub fn is_installed(&self) -> (found: bool)
        ensures
            !found,
    {
        false
    }

    /// Create the service. There is no service manager, so this fails.
    pub fn create(&mut self, config: ServiceConfig) -> (result: Result<(), CreateError>)
        ensures
            *final(self) == *old(self),
            result == Err::<(), CreateError>(CreateError::NoSystemCtl),
    {
        Err(CreateError::NoSystemCtl)
    }

    /// Start the service. There is no service manager, so this fails.
    pub fn start(&mut self) -> (result: Result<(), StartStopError>)
        ensures
            *final(self) == *old(self),
            result == Err::<(), StartStopError>(StartStopError::NoSystemCtl),
    {
        Err(StartStopError::NoSystemCtl)
    }

    /// Stop the service. There is no service manager, so this fails.
    pub fn stop(&mut self) -> (result: Result<(), StartStopError>)
        ensures
            *final(self) == *old(self),
            result == Err::<(), StartStopError>(StartStopError::NoSystemCtl),
    {
        Err(StartStopError::NoSystemCtl)
    }

    /// Delete the service. No service is installed, so there is nothing to
    /// delete, and this fails.
    pub fn delete(&mut self) -> (result: Result<(), std::io::Error>)
        ensures
            *final(self) == *old(self),
            result is Err,
    {
        Err(not_found())
    }

    /// Run the service: the service main is called, and when it returns the
    /// dispatch has succeeded.
    pub fn dispatch<F: FnOnce()>(&self, service_main: F) -> (result: Result<(), u32>)
        requires
            service_main.requires(()),
        ensures
            service_main.ensures((), ()),
            result == Ok::<(), u32>(()),
    {
        service_main();
        Ok(())
    }
}

} // verus!
