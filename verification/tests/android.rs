use service::android::Service;
use service::error::{CreateError, StartStopError};
use service::linux::ServiceConfig;

#[test]
fn android_service_never_exists() {
    let service = Service::new("sample".to_string());
    assert_eq!(service.name(), "sample");
    assert!(!service.is_installed());
}

#[test]
fn android_service_cannot_be_created() {
    let mut service = Service::new("sample".to_string());
    let config = ServiceConfig::new(Vec::new(), "D".to_string(), "/bin/x".to_string(), None);
    assert!(matches!(service.create(config), Err(CreateError::NoSystemCtl)));
    assert!(!service.is_installed());
}

#[test]
fn android_service_cannot_be_started_or_stopped() {
    let mut service = Service::new("sample".to_string());
    assert_eq!(service.start(), Err(StartStopError::NoSystemCtl));
    assert_eq!(service.stop(), Err(StartStopError::NoSystemCtl));
}

#[test]
fn android_delete_of_a_service_that_is_not_there_is_an_error() {
    let mut service = Service::new("sample".to_string());
    assert!(!service.is_installed());
    let error = service.delete().unwrap_err();
    assert_eq!(error.kind(), std::io::ErrorKind::NotFound);
    assert!(!service.is_installed());
    assert_eq!(service.name(), "sample");
}

#[test]
fn android_dispatch_calls_the_service_main() {
    let mut called = false;
    let service = Service::new("sample".to_string());
    assert_eq!(service.dispatch(|| called = true), Ok(()));
    assert!(called);
}
