use std::collections::HashMap;

use service::error::ErrorKind;
use service::text::get_utf16;
use service::windows::{
    CreateOp, CreateServiceError, DeleteOp, DeleteServiceError, ExistsOp, Reply, Request, Service,
    ServiceConfig, StartOp, StartServiceError, StopOp, StopServiceError,
};

fn strings(items: &[&str]) -> Vec<String> {
    items.iter().map(|s| s.to_string()).collect()
}

fn sample_config() -> ServiceConfig {
    let mut config = ServiceConfig::new(
        strings(&["example-arg1", "arg2"]),
        "The Example service".to_string(),
        "C:\\bin\\example.exe".to_string(),
        None,
    );
    config.display = "Example service".to_string();
    config
}

/// A service control manager that is kept in memory.
struct FakeManager {
    reachable: bool,
    services: HashMap<Vec<u16>, u32>,
    descriptions: HashMap<Vec<u16>, Vec<u16>>,
    log_sources: Vec<String>,
    opened: Option<Vec<u16>>,
    pending_polls: u32,
    polls_left: u32,
    slept: u64,
    refuse_description: Option<u32>,
    refuse_create: Option<u32>,
    requests: Vec<Request>,
}

fn new_manager() -> FakeManager {
    FakeManager {
        reachable: true,
        services: HashMap::new(),
        descriptions: HashMap::new(),
        log_sources: Vec::new(),
        opened: None,
        pending_polls: 2,
        polls_left: 0,
        slept: 0,
        refuse_description: None,
        refuse_create: None,
        requests: Vec::new(),
    }
}

fn perform(manager: &mut FakeManager, request: Request) -> Reply {
    let reply = match &request {
        Request::RegisterLog { source } => {
            if !manager.log_sources.contains(source) {
                manager.log_sources.push(source.clone());
            }
            Reply::Succeeded
        }
        Request::DeregisterLog { source } => {
            manager.log_sources.retain(|s| s != source);
            Reply::Succeeded
        }
        Request::OpenManager { access } => {
            assert_eq!(*access, 0xF003F);
            if manager.reachable {
                Reply::Succeeded
            } else {
                Reply::Failed(5)
            }
        }
        Request::OpenService { name, access } => {
            assert_eq!(*access, 0xF01FF);
            if manager.services.contains_key(name) {
                manager.opened = Some(name.clone());
                Reply::Succeeded
            } else {
                Reply::Failed(1060)
            }
        }
        Request::CreateService { definition } => {
            if let Some(code) = manager.refuse_create {
                Reply::Failed(code)
            } else if manager.services.contains_key(&definition.name) {
                Reply::Failed(1073)
            } else {
                manager.services.insert(definition.name.clone(), 1);
                manager.opened = Some(definition.name.clone());
                Reply::Succeeded
            }
        }
        Request::SetDescription { description } => match manager.refuse_description {
            Some(code) => Reply::Failed(code),
            None => {
                let name = manager.opened.clone().unwrap();
                manager.descriptions.insert(name, description.clone());
                Reply::Succeeded
            }
        },
        Request::StartService => {
            let name = manager.opened.clone().unwrap();
            if manager.services[&name] == 1 {
                manager.services.insert(name, 2);
                manager.polls_left = manager.pending_polls;
                Reply::Succeeded
            } else {
                Reply::Failed(1056)
            }
        }
        Request::Control { control } => {
            assert_eq!(*control, 1);
            let name = manager.opened.clone().unwrap();
            if manager.services[&name] == 4 {
                manager.services.insert(name, 3);
                manager.polls_left = manager.pending_polls;
                Reply::Status(3)
            } else {
                Reply::Failed(1062)
            }
        }
        Request::QueryStatus => {
            let name = manager.opened.clone().unwrap();
            let state = manager.services[&name];
            if manager.polls_left > 0 {
                manager.polls_left -= 1;
            } else if state == 2 {
                manager.services.insert(name.clone(), 4);
            } else if state == 3 {
                manager.services.insert(name.clone(), 1);
            }
            Reply::Status(manager.services[&name])
        }
        Request::DeleteService => {
            let name = manager.opened.take().unwrap();
            manager.services.remove(&name);
            manager.descriptions.remove(&name);
            Reply::Succeeded
        }
        Request::StartDispatcher { .. } => Reply::Succeeded,
        Request::Sleep { millis } => {
            manager.slept += millis;
            Reply::Succeeded
        }
    };
    manager.requests.push(request);
    reply
}

fn run_probe(manager: &mut FakeManager, mut op: ExistsOp) -> Result<bool, u32> {
    manager.opened = None;
    while let Some(request) = op.pending() {
        let reply = perform(manager, request);
        op.advance(reply);
    }
    op.outcome().unwrap()
}

fn run_create(manager: &mut FakeManager, mut op: CreateOp) -> Result<(), CreateServiceError> {
    manager.opened = None;
    while let Some(request) = op.pending() {
        let reply = perform(manager, request);
        op.advance(reply);
    }
    op.outcome().unwrap()
}

fn run_start(manager: &mut FakeManager, mut op: StartOp) -> Result<(), StartServiceError> {
    manager.opened = None;
    while let Some(request) = op.pending() {
        let reply = perform(manager, request);
        op.advance(reply);
    }
    op.outcome().unwrap()
}

fn run_stop(manager: &mut FakeManager, mut op: StopOp) -> Result<(), StopServiceError> {
    manager.opened = None;
    while let Some(request) = op.pending() {
        let reply = perform(manager, request);
        op.advance(reply);
    }
    op.outcome().unwrap()
}

fn run_delete(manager: &mut FakeManager, mut op: DeleteOp) -> Result<(), DeleteServiceError> {
    manager.opened = None;
    while let Some(request) = op.pending() {
        let reply = perform(manager, request);
        op.advance(reply);
    }
    op.outcome().unwrap()
}

#[test]
fn new_windows_config_has_the_defaults() {
    let config = ServiceConfig::new(
        strings(&["a"]),
        "d".to_string(),
        "b.exe".to_string(),
        Some("user".to_string()),
    );
    assert_eq!(config.arguments, strings(&["a"]));
    assert_eq!(config.description, "d");
    assert_eq!(config.binary, "b.exe");
    assert_eq!(config.username, Some("user".to_string()));
    assert_eq!(config.display, "");
    assert_eq!(config.user_password, None);
    assert_eq!(config.desired_access, 0xF01FF);
    assert_eq!(config.service_type, 0x10);
    assert_eq!(config.start_type, 2);
    assert_eq!(config.error_control, 1);
    assert_eq!(config.tag_id, 0);
    assert_eq!(config.load_order_group, None);
    assert_eq!(config.dependencies, None);
}

#[test]
fn command_line_with_and_without_arguments() {
    assert_eq!(Service::command_line(&sample_config()), "C:\\bin\\example.exe example-arg1 arg2");
    let bare = ServiceConfig::new(Vec::new(), String::new(), "x.exe".to_string(), None);
    assert_eq!(Service::command_line(&bare), "x.exe");
    let empty_argument = ServiceConfig::new(strings(&[""]), String::new(), "x.exe".to_string(), None);
    assert_eq!(Service::command_line(&empty_argument), "x.exe ");
}

#[test]
fn log_source_is_the_name_and_log() {
    let service = Service::new("example-service".to_string());
    assert_eq!(service.log_source(), "example-service Log");
    assert_eq!(service.name(), "example-service");
}

#[test]
fn definition_holds_the_configuration_in_wide_form() {
    let service = Service::new("example-service".to_string());
    let mut config = sample_config();
    config.username = Some(".\\user".to_string());
    config.user_password = Some("secret".to_string());
    config.dependencies = Some("Tcpip".to_string());
    config.start_type = 3;
    let definition = service.definition(&config);
    assert_eq!(definition.name, get_utf16("example-service"));
    assert_eq!(definition.display, get_utf16("Example service"));
    assert_eq!(definition.desired_access, 0xF01FF);
    assert_eq!(definition.service_type, 0x10);
    assert_eq!(definition.start_type, 3);
    assert_eq!(definition.error_control, 1);
    assert_eq!(definition.command, get_utf16("C:\\bin\\example.exe example-arg1 arg2"));
    assert_eq!(definition.load_order_group, None);
    assert_eq!(definition.dependencies, Some(get_utf16("Tcpip")));
    assert_eq!(definition.username, Some(get_utf16(".\\user")));
    assert_eq!(definition.password, Some(get_utf16("secret")));
    assert_eq!(definition.duplicate(), definition);
}

#[test]
fn probe_opens_the_manager_and_the_service() {
    let mut op = Service::new("sample".to_string()).is_installed();
    assert_eq!(op.pending(), Some(Request::OpenManager { access: 0xF003F }));
    assert_eq!(op.outcome(), None);
    op.advance(Reply::Succeeded);
    assert_eq!(
        op.pending(),
        Some(Request::OpenService { name: get_utf16("sample"), access: 0xF01FF })
    );
    op.advance(Reply::Failed(1060));
    assert_eq!(op.pending(), None);
    assert_eq!(op.outcome(), Some(Ok(false)));
    op.advance(Reply::Succeeded);
    assert_eq!(op.outcome(), Some(Ok(false)));
}

#[test]
fn probe_without_a_manager_is_an_error() {
    let mut manager = new_manager();
    manager.reachable = false;
    assert_eq!(run_probe(&mut manager, Service::new("sample".to_string()).is_installed()), Err(5));
    assert_eq!(manager.requests.len(), 1);
}

#[test]
fn never_installed_windows_services_do_not_exist() {
    let mut manager = new_manager();
    for name in ["sample", "other", ""] {
        assert_eq!(run_probe(&mut manager, Service::new(name.to_string()).is_installed()), Ok(false));
    }
    assert!(manager.services.is_empty());
}

#[test]
fn create_puts_its_requests_in_order() {
    let mut service = Service::new("sample".to_string());
    let mut op = service.create(sample_config());
    assert_eq!(op.pending(), Some(Request::OpenManager { access: 0xF003F }));
    op.advance(Reply::Succeeded);
    assert_eq!(op.pending(), Some(Request::RegisterLog { source: "sample Log".to_string() }));
    op.advance(Reply::Succeeded);
    assert_eq!(
        op.pending(),
        Some(Request::CreateService { definition: service.definition(&sample_config()) })
    );
    op.advance(Reply::Succeeded);
    assert_eq!(
        op.pending(),
        Some(Request::SetDescription { description: get_utf16("The Example service") })
    );
    op.advance(Reply::Succeeded);
    assert_eq!(op.pending(), None);
    assert_eq!(op.outcome(), Some(Ok(())));
}

#[test]
fn create_twice_is_rejected() {
    let mut manager = new_manager();
    let mut service = Service::new("sample".to_string());
    assert_eq!(run_create(&mut manager, service.create(sample_config())), Ok(()));
    let other = ServiceConfig::new(Vec::new(), "other".to_string(), "y.exe".to_string(), None);
    for config in [sample_config(), other] {
        let error = run_create(&mut manager, service.create(config)).unwrap_err();
        assert_eq!(error, CreateServiceError::WindowsError(1073));
        assert_eq!(error.kind(), ErrorKind::OperationRejected);
    }
    assert_eq!(manager.services.len(), 1);
    assert_eq!(manager.log_sources, strings(&["sample Log"]));
    assert_eq!(
        manager.descriptions[&get_utf16("sample")],
        get_utf16("The Example service")
    );
}

#[test]
fn create_without_a_manager() {
    let mut manager = new_manager();
    manager.reachable = false;
    let mut service = Service::new("sample".to_string());
    let error = run_create(&mut manager, service.create(sample_config())).unwrap_err();
    assert_eq!(error, CreateServiceError::ManagerUnavailable(5));
    assert_eq!(error.kind(), ErrorKind::ManagerUnavailable);
    assert!(manager.services.is_empty());
    assert!(manager.log_sources.is_empty());
    assert_eq!(manager.requests.len(), 1);
}

#[test]
fn create_whose_log_source_is_refused() {
    let mut service = Service::new("sample".to_string());
    let mut op = service.create(sample_config());
    op.advance(Reply::Succeeded);
    op.advance(Reply::Failed(5));
    assert_eq!(op.pending(), None);
    assert_eq!(op.outcome(), Some(Err(CreateServiceError::WindowsError(5))));
}

#[test]
fn create_that_is_refused_removes_the_log_source() {
    let mut manager = new_manager();
    manager.refuse_create = Some(1057);
    let mut service = Service::new("sample".to_string());
    let error = run_create(&mut manager, service.create(sample_config())).unwrap_err();
    assert_eq!(error, CreateServiceError::WindowsError(1057));
    assert!(manager.services.is_empty());
    assert!(manager.log_sources.is_empty());
    assert_eq!(
        manager.requests.last(),
        Some(&Request::DeregisterLog { source: "sample Log".to_string() })
    );
}

#[test]
fn create_whose_description_is_refused_removes_the_service_and_the_log_source() {
    let mut manager = new_manager();
    manager.refuse_description = Some(87);
    let mut service = Service::new("sample".to_string());
    let error = run_create(&mut manager, service.create(sample_config())).unwrap_err();
    assert_eq!(error, CreateServiceError::WindowsError(87));
    assert!(manager.services.is_empty());
    assert!(manager.log_sources.is_empty());
    let count = manager.requests.len();
    assert_eq!(manager.requests[count - 2], Request::DeleteService);
    assert_eq!(
        manager.requests[count - 1],
        Request::DeregisterLog { source: "sample Log".to_string() }
    );
}

#[test]
fn start_polls_until_the_service_runs() {
    let mut manager = new_manager();
    let mut service = Service::new("sample".to_string());
    run_create(&mut manager, service.create(sample_config())).unwrap();
    manager.requests.clear();
    assert_eq!(run_start(&mut manager, service.start()), Ok(()));
    assert_eq!(manager.services[&get_utf16("sample")], 4);
    assert_eq!(manager.slept, 500);
    assert_eq!(
        manager.requests,
        vec![
            Request::OpenManager { access: 0xF003F },
            Request::OpenService { name: get_utf16("sample"), access: 0xF01FF },
            Request::StartService,
            Request::QueryStatus,
            Request::Sleep { millis: 250 },
            Request::QueryStatus,
            Request::Sleep { millis: 250 },
            Request::QueryStatus,
        ]
    );
}

#[test]
fn start_of_a_missing_service_is_rejected() {
    let mut manager = new_manager();
    let mut service = Service::new("sample".to_string());
    let error = run_start(&mut manager, service.start()).unwrap_err();
    assert_eq!(error, StartServiceError::WindowsError(1060));
    assert_eq!(error.kind(), ErrorKind::OperationRejected);
}

#[test]
fn start_without_a_manager() {
    let mut manager = new_manager();
    manager.reachable = false;
    let mut service = Service::new("sample".to_string());
    let error = run_start(&mut manager, service.start()).unwrap_err();
    assert_eq!(error, StartServiceError::ManagerUnavailable(5));
    assert_eq!(error.kind(), ErrorKind::ManagerUnavailable);
}

#[test]
fn start_that_is_refused() {
    let mut manager = new_manager();
    let mut service = Service::new("sample".to_string());
    run_create(&mut manager, service.create(sample_config())).unwrap();
    run_start(&mut manager, service.start()).unwrap();
    assert_eq!(
        run_start(&mut manager, service.start()),
        Err(StartServiceError::WindowsError(1056))
    );
}

#[test]
fn start_that_ends_in_another_state_fails() {
    let mut service = Service::new("sample".to_string());
    let mut op = service.start();
    op.advance(Reply::Succeeded);
    op.advance(Reply::Succeeded);
    op.advance(Reply::Succeeded);
    op.advance(Reply::Status(2));
    assert_eq!(op.pending(), Some(Request::Sleep { millis: 250 }));
    op.advance(Reply::Succeeded);
    op.advance(Reply::Status(1));
    let error = op.outcome().unwrap().unwrap_err();
    assert_eq!(error, StartServiceError::FailedToStart(1));
    assert_eq!(error.kind(), ErrorKind::AlreadyRunningOrMissing);
}

#[test]
fn start_whose_query_fails_midway_fails() {
    let mut service = Service::new("sample".to_string());
    let mut op = service.start();
    op.advance(Reply::Succeeded);
    op.advance(Reply::Succeeded);
    op.advance(Reply::Succeeded);
    op.advance(Reply::Status(2));
    op.advance(Reply::Succeeded);
    op.advance(Reply::Failed(6));
    assert_eq!(op.pending(), None);
    assert_eq!(op.outcome(), Some(Err(StartServiceError::FailedToStart(2))));
}

#[test]
fn start_whose_first_query_fails_fails() {
    let mut service = Service::new("sample".to_string());
    let mut op = service.start();
    op.advance(Reply::Succeeded);
    op.advance(Reply::Succeeded);
    op.advance(Reply::Succeeded);
    op.advance(Reply::Failed(6));
    assert_eq!(op.outcome(), Some(Err(StartServiceError::FailedToStart(1))));
}

#[test]
fn stop_polls_until_the_service_is_stopped() {
    let mut manager = new_manager();
    let mut service = Service::new("sample".to_string());
    run_create(&mut manager, service.create(sample_config())).unwrap();
    run_start(&mut manager, service.start()).unwrap();
    manager.requests.clear();
    manager.slept = 0;
    assert_eq!(run_stop(&mut manager, service.stop()), Ok(()));
    assert_eq!(manager.services[&get_utf16("sample")], 1);
    assert_eq!(manager.slept, 500);
    assert_eq!(manager.requests[2], Request::Control { control: 1 });
    assert_eq!(manager.requests.len(), 8);
}

#[test]
fn stop_of_a_stopped_service_is_rejected() {
    let mut manager = new_manager();
    let mut service = Service::new("sample".to_string());
    run_create(&mut manager, service.create(sample_config())).unwrap();
    let error = run_stop(&mut manager, service.stop()).unwrap_err();
    assert_eq!(error, StopServiceError::WindowsError(1062));
    assert_eq!(error.kind(), ErrorKind::OperationRejected);
}

#[test]
fn stop_of_a_missing_service_is_rejected() {
    let mut manager = new_manager();
    let mut service = Service::new("sample".to_string());
    assert_eq!(run_stop(&mut manager, service.stop()), Err(StopServiceError::WindowsError(1060)));
    manager.reachable = false;
    assert_eq!(
        run_stop(&mut manager, service.stop()),
        Err(StopServiceError::ManagerUnavailable(5))
    );
}

#[test]
fn stop_that_ends_in_another_state_fails() {
    let mut service = Service::new("sample".to_string());
    let mut op = service.stop();
    op.advance(Reply::Succeeded);
    op.advance(Reply::Succeeded);
    op.advance(Reply::Status(3));
    op.advance(Reply::Status(3));
    op.advance(Reply::Succeeded);
    op.advance(Reply::Status(4));
    let error = op.outcome().unwrap().unwrap_err();
    assert_eq!(error, StopServiceError::FailedToStop(4));
    assert_eq!(error.kind(), ErrorKind::AlreadyRunningOrMissing);
}

#[test]
fn stop_whose_query_fails_midway_fails() {
    let mut service = Service::new("sample".to_string());
    let mut op = service.stop();
    op.advance(Reply::Succeeded);
    op.advance(Reply::Succeeded);
    op.advance(Reply::Status(3));
    op.advance(Reply::Failed(6));
    assert_eq!(op.pending(), None);
    assert_eq!(op.outcome(), Some(Err(StopServiceError::WindowsError(6))));
}

#[test]
fn stop_whose_query_gives_no_state_fails() {
    let mut service = Service::new("sample".to_string());
    let mut op = service.stop();
    op.advance(Reply::Succeeded);
    op.advance(Reply::Succeeded);
    op.advance(Reply::Succeeded);
    op.advance(Reply::Succeeded);
    assert_eq!(op.outcome(), Some(Err(StopServiceError::FailedToStop(3))));
}

#[test]
fn delete_removes_the_log_source_and_the_service() {
    let mut manager = new_manager();
    let mut service = Service::new("sample".to_string());
    run_create(&mut manager, service.create(sample_config())).unwrap();
    assert_eq!(manager.log_sources, strings(&["sample Log"]));
    manager.requests.clear();
    assert_eq!(run_delete(&mut manager, service.delete()), Ok(()));
    assert!(manager.services.is_empty());
    assert!(manager.log_sources.is_empty());
    assert_eq!(
        manager.requests,
        vec![
            Request::OpenManager { access: 0xF003F },
            Request::DeregisterLog { source: "sample Log".to_string() },
            Request::OpenService { name: get_utf16("sample"), access: 0xF01FF },
            Request::DeleteService,
        ]
    );
}

#[test]
fn delete_of_a_missing_windows_service_is_an_error() {
    let mut manager = new_manager();
    let mut service = Service::new("sample".to_string());
    let error = run_delete(&mut manager, service.delete()).unwrap_err();
    assert_eq!(error, DeleteServiceError::WindowsError(1060));
    assert_eq!(error.kind(), ErrorKind::OperationRejected);
    manager.reachable = false;
    let error = run_delete(&mut manager, service.delete()).unwrap_err();
    assert_eq!(error, DeleteServiceError::ManagerUnavailable(5));
    assert_eq!(error.kind(), ErrorKind::ManagerUnavailable);
}

#[test]
fn delete_that_is_refused() {
    let mut service = Service::new("sample".to_string());
    let mut op = service.delete();
    op.advance(Reply::Succeeded);
    op.advance(Reply::Failed(2));
    op.advance(Reply::Succeeded);
    op.advance(Reply::Failed(1072));
    assert_eq!(op.outcome(), Some(Err(DeleteServiceError::WindowsError(1072))));
}

#[test]
fn dispatch_starts_the_dispatcher_under_the_empty_name() {
    let service = Service::new("sample".to_string());
    let mut op = service.dispatch();
    assert_eq!(op.pending(), Some(Request::StartDispatcher { service_name: vec![0] }));
    assert_eq!(op.outcome(), None);
    op.advance(Reply::Succeeded);
    assert_eq!(op.pending(), None);
    assert_eq!(op.outcome(), Some(Ok(())));
}

#[test]
fn dispatch_that_cannot_start_the_dispatcher() {
    let service = Service::new("sample".to_string());
    let mut op = service.dispatch();
    op.advance(Reply::Failed(1063));
    assert_eq!(op.outcome(), Some(Err(1063)));
}

#[test]
fn whole_life_of_a_windows_service() {
    let mut manager = new_manager();
    let mut service = Service::new("sample".to_string());
    assert_eq!(run_probe(&mut manager, service.is_installed()), Ok(false));
    assert_eq!(run_create(&mut manager, service.create(sample_config())), Ok(()));
    assert_eq!(run_probe(&mut manager, service.is_installed()), Ok(true));
    assert_eq!(run_start(&mut manager, service.start()), Ok(()));
    assert_eq!(manager.services[&get_utf16("sample")], 4);
    assert_eq!(run_stop(&mut manager, service.stop()), Ok(()));
    assert_eq!(manager.services[&get_utf16("sample")], 1);
    assert_eq!(run_delete(&mut manager, service.delete()), Ok(()));
    assert_eq!(run_probe(&mut manager, service.is_installed()), Ok(false));
}
