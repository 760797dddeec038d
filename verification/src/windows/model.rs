//! A model of the service control manager, and what the operations come to
//! when they are driven against it.
//!
//! The model knows which services are installed, which log sources are
//! registered, which service the running operation has opened, and which
//! requests the manager refuses whatever it holds. It answers the other
//! requests as the service control manager does: a service is found if it is
//! installed, it is created unless it is installed already, and it is
//! removed if it was opened.

use vstd::prelude::*;
use crate::error::ErrorKind;
use crate::text::wide_text;
use crate::windows::{
    definition_of, log_source, CreateOp, CreateServiceError, CreateStage, DeleteOp, DeleteStage,
    ExistsOp, ExistsStage, Reply, RequestView, ServiceConfig, ERROR_SERVICE_EXISTS,
};

verus! {

/// The error code of a service that is not installed.
pub const ERROR_SERVICE_DOES_NOT_EXIST: u32 = 1060;

/// The error code of a request about a service that was not opened.
pub const ERROR_INVALID_HANDLE: u32 = 6;

/// What the service control manager holds.
pub struct Manager {
    /// The names of the installed services, in wide form
    pub services: Set<Seq<u16>>,
    /// The names of the registered log sources
    pub log_sources: Set<Seq<char>>,
    /// The service that the running operation has opened or created
    pub opened: Option<Seq<u16>>,
    /// The requests that the manager refuses, each with its error code
    pub refusals: Map<RequestView, u32>,
}

impl Manager {
    /// The manager after a request, and its reply.
    pub open spec fn answer(self, request: RequestView) -> (Manager, Reply) {
        if self.refusals.contains_key(request) {
            (self, Reply::Failed(self.refusals[request]))
        } else {
            match request {
                RequestView::RegisterLog { source } => (
                    Manager { log_sources: self.log_sources.insert(source), ..self },
                    Reply::Succeeded,
                ),
                RequestView::DeregisterLog { source } => (
                    Manager { log_sources: self.log_sources.remove(source), ..self },
                    Reply::Succeeded,
                ),
                RequestView::OpenService { name, access } => if self.services.contains(name) {
                    (Manager { opened: Some(name), ..self }, Reply::Succeeded)
                } else {
                    (self, Reply::Failed(ERROR_SERVICE_DOES_NOT_EXIST))
                },
                RequestView::CreateService { definition } => if self.services.contains(
                    definition.name,
                ) {
                    (self, Reply::Failed(ERROR_SERVICE_EXISTS))
                } else {
                    (
                        Manager {
                            services: self.services.insert(definition.name),
                            opened: Some(definition.name),
                            ..self
                        },
                        Reply::Succeeded,
                    )
                },
                RequestView::DeleteService => match self.opened {
                    Some(name) => if self.services.contains(name) {
                        (
                            Manager {
                                services: self.services.remove(name),
                                opened: None,
                                ..self
                            },
                            Reply::Succeeded,
                        )
                    } else {
                        (self, Reply::Failed(ERROR_SERVICE_DOES_NOT_EXIST))
                    },
                    None => (self, Reply::Failed(ERROR_INVALID_HANDLE)),
                },
                _ => (self, Reply::Succeeded),
            }
        }
    }

    /// The manager at the beginning of an operation: nothing is opened.
    pub open spec fn idle(self) -> Manager {
        Manager { opened: None, ..self }
    }

    /// Whether the manager refuses no request out of hand.
    pub open spec fn willing(self) -> bool {
        forall|request: RequestView| !self.refusals.contains_key(request)
    }

    /// Whether the log source of a service of this name is registered
    /// exactly if the service is installed.
    pub open spec fn in_step(self, name: Seq<char>) -> bool {
        self.log_sources.contains(log_source(name)) <==> self.services.contains(wide_text(name))
    }

    /// Whether the manager lets the creation of a service of this name be
    /// undone, and says that the service is installed already only where it
    /// is.
    pub open spec fn lets_undo(self, name: Seq<char>, config: ServiceConfig) -> bool {
        let create = RequestView::CreateService { definition: definition_of(name, config) };
        &&& !self.refusals.contains_key(RequestView::DeleteService)
        &&& !self.refusals.contains_key(RequestView::DeregisterLog { source: log_source(name) })
        &&& self.refusals.contains_key(create) ==> (self.refusals[create] == ERROR_SERVICE_EXISTS
            <==> self.services.contains(wide_text(name)))
    }
}

impl ExistsOp {
    /// How many requests the probe puts at most before it ends.
    pub open spec fn steps_left(self) -> nat {
        match self.stage {
            ExistsStage::OpenManager => 2,
            ExistsStage::OpenService => 1,
            ExistsStage::Finished(_) => 0,
        }
    }

    /// The manager and the probe after the probe has been driven to its end.
    pub open spec fn against(self, manager: Manager) -> (Manager, ExistsOp)
        decreases self.steps_left(),
    {
        match self.spec_pending() {
            None => (manager, self),
            Some(request) => {
                let (next, reply) = manager.answer(request);
                self.spec_advance(reply).against(next)
            },
        }
    }
}

impl CreateOp {
    /// The manager and the operation after the operation has been driven to
    /// its end.
    pub open spec fn against(self, manager: Manager) -> (Manager, CreateOp)
        decreases self.steps_left(),
    {
        match self.spec_pending() {
            None => (manager, self),
            Some(request) => {
                let (next, reply) = manager.answer(request);
                self.spec_advance(reply).against(next)
            },
        }
    }
}

impl DeleteOp {
    /// The manager and the operation after the operation has been driven to
    /// its end.
    pub open spec fn against(self, manager: Manager) -> (Manager, DeleteOp)
        decreases self.steps_left(),
    {
        match self.spec_pending() {
            None => (manager, self),
            Some(request) => {
                let (next, reply) = manager.answer(request);
                self.spec_advance(reply).against(next)
            },
        }
    }
}

/// Whether a probe is the one that `is_installed` begins for a service of
/// this name.
pub open spec fn probes(probe: ExistsOp, name: Seq<char>) -> bool {
    probe.name@ == wide_text(name) && probe.stage == ExistsStage::OpenManager
}

/// Whether an operation is the one that `create` begins for a service of
/// this name.
pub open spec fn creates(create: CreateOp, name: Seq<char>, config: ServiceConfig) -> bool {
    &&& create.log_source@ == log_source(name)
    &&& create.definition@ == definition_of(name, config)
    &&& create.description@ == wide_text(config.description@)
    &&& create.stage == CreateStage::OpenManager
}

/// Whether an operation is the one that `delete` begins for a service of
/// this name.
pub open spec fn deletes(delete: DeleteOp, name: Seq<char>) -> bool {
    &&& delete.name@ == wide_text(name)
    &&& delete.log_source@ == log_source(name)
    &&& delete.stage == DeleteStage::OpenManager
}

/// The probe leaves the installed services and the log sources as they are,
/// whatever the manager refuses. Where the manager refuses nothing, the
/// probe finds exactly the installed services.
pub proof fn lemma_probe_finds_installed(manager: Manager, probe: ExistsOp, name: Seq<char>)
    requires
        probes(probe, name),
    ensures
        probe.against(manager).0.services == manager.services,
        probe.against(manager).0.log_sources == manager.log_sources,
        manager.willing() ==> probe.against(manager).1.spec_outcome() == Some(
            Ok::<bool, u32>(manager.services.contains(wide_text(name))),
        ),
{
    reveal_with_fuel(ExistsOp::against, 3);
}

/// A service that was never installed is not found. After its creation has
/// succeeded it is found, and after its removal has succeeded it is not
/// found again.
pub proof fn lemma_create_delete_round_trip(
    manager: Manager,
    name: Seq<char>,
    config: ServiceConfig,
    probe: ExistsOp,
    create: CreateOp,
    delete: DeleteOp,
)
    requires
        probes(probe, name),
        creates(create, name, config),
        deletes(delete, name),
        manager.willing(),
        !manager.services.contains(wide_text(name)),
    ensures
        probe.against(manager).1.spec_outcome() == Some(Ok::<bool, u32>(false)),
        ({
            let (created, done) = create.against(manager.idle());
            &&& done.spec_outcome() == Some(Ok::<(), CreateServiceError>(()))
            &&& probe.against(created.idle()).1.spec_outcome() == Some(Ok::<bool, u32>(true))
            &&& ({
                let (deleted, gone) = delete.against(created.idle());
                &&& gone.spec_outcome() matches Some(Ok(_))
                &&& probe.against(deleted.idle()).1.spec_outcome() == Some(Ok::<bool, u32>(false))
                &&& deleted.services == manager.services
            })
        }),
{
    reveal_with_fuel(ExistsOp::against, 3);
    reveal_with_fuel(CreateOp::against, 7);
    reveal_with_fuel(DeleteOp::against, 5);
    let (created, done) = create.against(manager.idle());
    assert(created.services == manager.services.insert(wide_text(name)));
    assert(created.willing());
    let (deleted, gone) = delete.against(created.idle());
    assert(deleted.services =~= manager.services);
}

/// The creation of a service is done whole or not at all, whatever the
/// manager refuses along the way, as long as it lets the creation be undone.
///
/// A creation that succeeds has installed a service that was not installed
/// before, and has registered its log source. A creation that fails, at
/// whatever request, leaves the installed services and the log sources as
/// they were. So a creation never succeeds for a service that is installed
/// already.
pub proof fn lemma_create_is_atomic(
    manager: Manager,
    name: Seq<char>,
    config: ServiceConfig,
    create: CreateOp,
)
    requires
        creates(create, name, config),
        manager.in_step(name),
        manager.lets_undo(name, config),
    ensures
        ({
            let (after, done) = create.against(manager.idle());
            &&& done.spec_outcome() is Some
            &&& after.in_step(name)
            &&& done.spec_outcome() matches Some(Ok(_)) ==> {
                &&& !manager.services.contains(wide_text(name))
                &&& after.services == manager.services.insert(wide_text(name))
                &&& after.log_sources == manager.log_sources.insert(log_source(name))
            }
            &&& done.spec_outcome() matches Some(Err(_)) ==> {
                &&& after.services == manager.services
                &&& after.log_sources == manager.log_sources
            }
        }),
{
    reveal_with_fuel(CreateOp::against, 7);
    let (after, done) = create.against(manager.idle());
    let source = log_source(name);
    let wide = wide_text(name);
    if done.spec_outcome() matches Some(Err(_)) {
        assert(after.services =~= manager.services);
        assert(after.log_sources =~= manager.log_sources);
    }
}

/// A service cannot be created twice: after a creation that succeeded, a
/// second one under the same name, with whatever configuration, is rejected
/// with the error code of a service that exists already, and changes
/// nothing.
pub proof fn lemma_second_create_is_rejected(
    manager: Manager,
    name: Seq<char>,
    config: ServiceConfig,
    again: ServiceConfig,
    first: CreateOp,
    second: CreateOp,
)
    requires
        creates(first, name, config),
        creates(second, name, again),
        manager.willing(),
        first.against(manager.idle()).1.spec_outcome() == Some(
            Ok::<(), CreateServiceError>(()),
        ),
    ensures
        ({
            let created = first.against(manager.idle()).0;
            let (after, done) = second.against(created.idle());
            &&& done.spec_outcome() == Some(
                Err::<(), CreateServiceError>(
                    CreateServiceError::WindowsError(ERROR_SERVICE_EXISTS),
                ),
            )
            &&& done.spec_outcome()->0->Err_0.spec_kind() == ErrorKind::OperationRejected
            &&& after.services == created.services
            &&& after.log_sources == created.log_sources
        }),
{
    reveal_with_fuel(CreateOp::against, 7);
    let created = first.against(manager.idle()).0;
    assert(created.willing());
    let (after, done) = second.against(created.idle());
    assert(after.log_sources =~= created.log_sources);
}

/// The removal of a service that is not installed is an error, and leaves
/// the installed services as they are.
pub proof fn lemma_delete_of_missing_is_rejected(
    manager: Manager,
    name: Seq<char>,
    delete: DeleteOp,
)
    requires
        deletes(delete, name),
        manager.willing(),
        !manager.services.contains(wide_text(name)),
    ensures
        ({
            let (after, done) = delete.against(manager.idle());
            &&& done.spec_outcome() matches Some(Err(error)) && error.spec_kind()
                == ErrorKind::OperationRejected
            &&& after.services == manager.services
        }),
{
    reveal_with_fuel(DeleteOp::against, 5);
}

} // verus!
