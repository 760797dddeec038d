use std::collections::HashMap;

use service::error::{CreateError, ErrorKind, StartStopError};
use service::linux::{
    CreateOp, DeleteOp, ExistsOp, Reply, Request, Service, ServiceConfig, SystemctlOp,
};

fn strings(items: &[&str]) -> Vec<String> {
    items.iter().map(|s| s.to_string()).collect()
}

fn sample_config() -> ServiceConfig {
    let mut config =
        ServiceConfig::new(strings(&["a", "b"]), "D".to_string(), "/bin/x".to_string(), None);
    config.config_path = "/etc/x".to_string();
    config
}

/// A host that is kept in memory: its files, the services that run, and how
/// systemctl ends.
struct FakeHost {
    files: HashMap<String, String>,
    running: Vec<String>,
    systemctl: Option<bool>,
    requests: Vec<Request>,
}

fn new_host() -> FakeHost {
    FakeHost { files: HashMap::new(), running: Vec::new(), systemctl: Some(true), requests: Vec::new() }
}

fn not_found() -> std::io::Error {
    std::io::Error::new(std::io::ErrorKind::NotFound, "no such file")
}

fn perform(host: &mut FakeHost, request: Request) -> Reply {
    let reply = match &request {
        Request::ProbeFile { path } => Reply::Present(host.files.contains_key(path)),
        Request::WriteFile { path, content } => {
            host.files.insert(path.clone(), content.clone());
            Reply::Completed
        }
        Request::RemoveFile { path } => match host.files.remove(path) {
            Some(_) => Reply::Completed,
            None => Reply::IoFailed(not_found()),
        },
        Request::Systemctl { arguments } => match host.systemctl {
            None => Reply::IoFailed(not_found()),
            Some(false) => Reply::Exited { success: false },
            Some(true) => {
                if arguments[0] == "start" {
                    host.running.push(arguments[1].clone());
                } else if arguments[0] == "stop" {
                    host.running.retain(|name| name != &arguments[1]);
                }
                Reply::Exited { success: true }
            }
        },
    };
    host.requests.push(request);
    reply
}

fn run_probe(host: &mut FakeHost, mut op: ExistsOp) -> bool {
    while let Some(request) = op.pending() {
        let reply = perform(host, request);
        op.advance(reply);
    }
    op.outcome().unwrap()
}

fn run_systemctl(host: &mut FakeHost, mut op: SystemctlOp) -> Result<(), StartStopError> {
    while let Some(request) = op.pending() {
        let reply = perform(host, request);
        op.advance(reply);
    }
    op.outcome().unwrap()
}

fn run_create(host: &mut FakeHost, mut op: CreateOp) -> Result<(), CreateError> {
    while let Some(request) = op.pending() {
        let reply = perform(host, request);
        op.advance(reply);
    }
    op.outcome().unwrap()
}

fn run_delete(host: &mut FakeHost, mut op: DeleteOp) -> Result<(), std::io::Error> {
    while let Some(request) = op.pending() {
        let reply = perform(host, request);
        op.advance(reply);
    }
    op.outcome().unwrap()
}

#[test]
fn unit_file_without_user() {
    let service = Service::new("sample".to_string());
    assert_eq!(
        service.build_systemd_file(sample_config()),
        "[Unit]\nDescription=D\n\n[Service]\nWorkingDirectory=/etc/x\nExecStart=/bin/x a b\n\n[Install]\nWantedBy=multi-user.target\n"
    );
}

#[test]
fn unit_file_with_user() {
    let service = Service::new("sample".to_string());
    let mut config = ServiceConfig::new(
        strings(&["--port", "80"]),
        "The Example service".to_string(),
        "/usr/bin/example".to_string(),
        Some("daemon".to_string()),
    );
    config.config_path = "./".to_string();
    assert_eq!(
        service.build_systemd_file(config),
        "[Unit]\nDescription=The Example service\n\n[Service]\nUser=daemon\nWorkingDirectory=./\nExecStart=/usr/bin/example --port 80\n\n[Install]\nWantedBy=multi-user.target\n"
    );
}

#[test]
fn unit_file_without_arguments_and_config_path() {
    let service = Service::new("sample".to_string());
    let config = ServiceConfig::new(Vec::new(), String::new(), "/bin/x".to_string(), None);
    assert_eq!(
        service.build_systemd_file(config),
        "[Unit]\nDescription=\n\n[Service]\nWorkingDirectory=\nExecStart=/bin/x \n\n[Install]\nWantedBy=multi-user.target\n"
    );
}

#[test]
fn unit_file_does_not_depend_on_the_name() {
    let one = Service::new("one".to_string()).build_systemd_file(sample_config());
    let two = Service::new("two".to_string()).build_systemd_file(sample_config());
    assert_eq!(one, two);
}

#[test]
fn new_config_has_an_empty_config_path() {
    let config = ServiceConfig::new(
        strings(&["x"]),
        "d".to_string(),
        "/b".to_string(),
        Some("u".to_string()),
    );
    assert_eq!(config.arguments, strings(&["x"]));
    assert_eq!(config.description, "d");
    assert_eq!(config.binary, "/b");
    assert_eq!(config.username, Some("u".to_string()));
    assert_eq!(config.config_path, "");
}

#[test]
fn systemd_path_is_the_directory_of_the_system_units() {
    assert_eq!(Service::new("sample".to_string()).systemd_path(), "/etc/systemd/system");
}

#[test]
fn unit_file_path_is_in_the_directory_of_the_system_units() {
    let service = Service::new("sample".to_string());
    assert_eq!(service.unit_file_path(), "/etc/systemd/system/sample.service");
    assert_eq!(service.name(), "sample");
}

#[test]
fn unit_file_path_agrees_with_a_path_join() {
    for name in ["sample", "", "a b", "/abs", "/", "dir/unit", "\u{e4}"] {
        let joined = std::path::PathBuf::from("/etc/systemd/system").join(format!("{}.service", name));
        assert_eq!(
            Service::new(name.to_string()).unit_file_path(),
            joined.to_str().unwrap().to_string()
        );
    }
}

#[test]
fn probe_asks_for_the_unit_file() {
    let mut op = Service::new("sample".to_string()).is_installed();
    assert_eq!(
        op.pending(),
        Some(Request::ProbeFile { path: "/etc/systemd/system/sample.service".to_string() })
    );
    assert_eq!(op.outcome(), None);
    op.advance(Reply::Present(true));
    assert_eq!(op.pending(), None);
    assert_eq!(op.outcome(), Some(true));
    op.advance(Reply::Present(false));
    assert_eq!(op.outcome(), Some(true));
}

#[test]
fn probe_of_a_missing_unit_file() {
    let mut op = Service::new("sample".to_string()).is_installed();
    op.advance(Reply::Present(false));
    assert_eq!(op.outcome(), Some(false));
    let mut op = Service::new("sample".to_string()).is_installed();
    op.advance(Reply::Completed);
    assert_eq!(op.outcome(), Some(false));
}

#[test]
fn start_calls_systemctl_start() {
    let mut service = Service::new("sample".to_string());
    let mut op = service.start();
    assert_eq!(op.pending(), Some(Request::Systemctl { arguments: strings(&["start", "sample"]) }));
    assert_eq!(op.outcome(), None);
    op.advance(Reply::Exited { success: true });
    assert_eq!(op.pending(), None);
    assert_eq!(op.outcome(), Some(Ok(())));
}

#[test]
fn stop_calls_systemctl_stop() {
    let mut service = Service::new("sample".to_string());
    let mut op = service.stop();
    assert_eq!(op.pending(), Some(Request::Systemctl { arguments: strings(&["stop", "sample"]) }));
    op.advance(Reply::Exited { success: true });
    assert_eq!(op.outcome(), Some(Ok(())));
}

#[test]
fn reload_calls_systemctl_daemon_reload() {
    let mut service = Service::new("sample".to_string());
    let op = service.reload();
    assert_eq!(op.pending(), Some(Request::Systemctl { arguments: strings(&["daemon-reload"]) }));
}

#[test]
fn systemctl_that_fails() {
    let mut service = Service::new("sample".to_string());
    let mut op = service.start();
    op.advance(Reply::Exited { success: false });
    assert_eq!(op.outcome(), Some(Err(StartStopError::SystemCtlFailed)));
    assert_eq!(StartStopError::SystemCtlFailed.kind(), ErrorKind::OperationRejected);
}

#[test]
fn systemctl_that_cannot_be_called() {
    let mut service = Service::new("sample".to_string());
    let mut op = service.stop();
    op.advance(Reply::IoFailed(not_found()));
    assert_eq!(op.outcome(), Some(Err(StartStopError::NoSystemCtl)));
    assert_eq!(StartStopError::NoSystemCtl.kind(), ErrorKind::ManagerUnavailable);
    op.advance(Reply::Exited { success: true });
    assert_eq!(op.outcome(), Some(Err(StartStopError::NoSystemCtl)));
}

#[test]
fn create_writes_the_unit_file_and_reloads() {
    let mut service = Service::new("sample".to_string());
    let mut op = service.create(sample_config());
    assert_eq!(
        op.pending(),
        Some(Request::ProbeFile { path: "/etc/systemd/system/sample.service".to_string() })
    );
    op.advance(Reply::Present(false));
    assert_eq!(
        op.pending(),
        Some(Request::WriteFile {
            path: "/etc/systemd/system/sample.service".to_string(),
            content: "[Unit]\nDescription=D\n\n[Service]\nWorkingDirectory=/etc/x\nExecStart=/bin/x a b\n\n[Install]\nWantedBy=multi-user.target\n".to_string(),
        })
    );
    op.advance(Reply::Completed);
    assert_eq!(op.pending(), Some(Request::Systemctl { arguments: strings(&["daemon-reload"]) }));
    op.advance(Reply::Exited { success: true });
    assert_eq!(op.pending(), None);
    assert!(matches!(op.outcome(), Some(Ok(()))));
}

#[test]
fn create_that_cannot_write_does_not_reload() {
    let mut service = Service::new("sample".to_string());
    let mut op = service.create(sample_config());
    op.advance(Reply::Present(false));
    op.advance(Reply::IoFailed(std::io::Error::new(std::io::ErrorKind::PermissionDenied, "denied")));
    assert_eq!(op.pending(), None);
    match op.outcome() {
        Some(Err(CreateError::FileIoError(error))) => {
            assert_eq!(error.kind(), std::io::ErrorKind::PermissionDenied);
            assert_eq!(CreateError::FileIoError(error).kind(), ErrorKind::IoFailure);
        }
        other => panic!("unexpected outcome {:?}", other),
    }
}

#[test]
fn create_whose_reload_fails() {
    let mut service = Service::new("sample".to_string());
    let mut op = service.create(sample_config());
    op.advance(Reply::Present(false));
    op.advance(Reply::Completed);
    op.advance(Reply::Exited { success: false });
    let error = op.outcome().unwrap().unwrap_err();
    assert!(matches!(error, CreateError::SystemCtlFailed));
    assert_eq!(error.kind(), ErrorKind::OperationRejected);
}

#[test]
fn create_without_systemctl() {
    let mut service = Service::new("sample".to_string());
    let mut op = service.create(sample_config());
    op.advance(Reply::Present(false));
    op.advance(Reply::Completed);
    op.advance(Reply::IoFailed(not_found()));
    let error = op.outcome().unwrap().unwrap_err();
    assert!(matches!(error, CreateError::NoSystemCtl));
    assert_eq!(error.kind(), ErrorKind::ManagerUnavailable);
}

#[test]
fn create_of_an_installed_service_is_rejected() {
    let mut service = Service::new("sample".to_string());
    let mut op = service.create(sample_config());
    op.advance(Reply::Present(true));
    assert_eq!(op.pending(), None);
    let error = op.outcome().unwrap().unwrap_err();
    assert!(matches!(error, CreateError::AlreadyExists));
    assert_eq!(error.kind(), ErrorKind::OperationRejected);
}

#[test]
fn create_twice_is_rejected_and_keeps_the_first_unit_file() {
    let mut host = new_host();
    let mut service = Service::new("sample".to_string());
    assert!(run_create(&mut host, service.create(sample_config())).is_ok());
    let first = host.files["/etc/systemd/system/sample.service"].clone();
    let other = ServiceConfig::new(Vec::new(), "other".to_string(), "/bin/y".to_string(), None);
    let error = run_create(&mut host, service.create(other)).unwrap_err();
    assert!(matches!(error, CreateError::AlreadyExists));
    assert_eq!(error.kind(), ErrorKind::OperationRejected);
    assert_eq!(host.files["/etc/systemd/system/sample.service"], first);
    assert!(run_create(&mut host, service.create(sample_config())).is_err());
    assert!(run_delete(&mut host, service.delete()).is_ok());
    assert!(run_create(&mut host, service.create(sample_config())).is_ok());
}

#[test]
fn create_that_cannot_write_leaves_no_file() {
    let mut service = Service::new("sample".to_string());
    let mut op = service.create(sample_config());
    let mut requests = Vec::new();
    while let Some(request) = op.pending() {
        let reply = match &request {
            Request::ProbeFile { .. } => Reply::Present(false),
            _ => Reply::IoFailed(not_found()),
        };
        requests.push(request);
        op.advance(reply);
    }
    assert_eq!(requests.len(), 2);
    assert!(matches!(requests[1], Request::WriteFile { .. }));
    assert!(matches!(op.outcome(), Some(Err(CreateError::FileIoError(_)))));
}

#[test]
fn create_error_from_start_stop_error() {
    assert!(matches!(CreateError::from(StartStopError::NoSystemCtl), CreateError::NoSystemCtl));
    assert!(matches!(
        CreateError::from(StartStopError::SystemCtlFailed),
        CreateError::SystemCtlFailed
    ));
    assert_eq!(CreateError::SystemCtlReloadFailed.kind(), ErrorKind::OperationRejected);
}

#[test]
fn delete_removes_the_unit_file() {
    let mut service = Service::new("sample".to_string());
    let mut op = service.delete();
    assert_eq!(
        op.pending(),
        Some(Request::RemoveFile { path: "/etc/systemd/system/sample.service".to_string() })
    );
    op.advance(Reply::Completed);
    assert_eq!(op.pending(), None);
    assert!(matches!(op.outcome(), Some(Ok(()))));
}

#[test]
fn delete_of_a_missing_service_is_an_error() {
    let mut host = new_host();
    let mut service = Service::new("sample".to_string());
    let error = run_delete(&mut host, service.delete()).unwrap_err();
    assert_eq!(error.kind(), std::io::ErrorKind::NotFound);
}

#[test]
fn dispatch_calls_the_service_main() {
    let mut called = 0;
    let service = Service::new("sample".to_string());
    assert_eq!(service.dispatch(|| called += 1), Ok(()));
    assert_eq!(called, 1);
}

#[test]
fn never_installed_services_do_not_exist() {
    let mut host = new_host();
    for name in ["sample", "other", ""] {
        assert!(!run_probe(&mut host, Service::new(name.to_string()).is_installed()));
    }
    assert!(host.files.is_empty());
}

#[test]
fn whole_life_of_a_service() {
    let mut host = new_host();
    let mut service = Service::new("sample".to_string());
    assert!(!run_probe(&mut host, service.is_installed()));
    assert!(run_create(&mut host, service.create(sample_config())).is_ok());
    assert!(run_probe(&mut host, service.is_installed()));
    assert_eq!(run_systemctl(&mut host, service.start()), Ok(()));
    assert_eq!(host.running, strings(&["sample"]));
    assert_eq!(run_systemctl(&mut host, service.stop()), Ok(()));
    assert!(host.running.is_empty());
    assert!(run_delete(&mut host, service.delete()).is_ok());
    assert!(!run_probe(&mut host, service.is_installed()));
    assert_eq!(host.requests.len(), 9);
}

#[test]
fn services_do_not_see_each_other() {
    let mut host = new_host();
    let mut one = Service::new("one".to_string());
    let two = Service::new("two".to_string());
    assert!(run_create(&mut host, one.create(sample_config())).is_ok());
    assert!(run_probe(&mut host, one.is_installed()));
    assert!(!run_probe(&mut host, two.is_installed()));
}
