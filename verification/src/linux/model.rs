//! A model of the host of a systemd service, and what the operations come to
//! when they are driven against it.
//!
//! The model knows the files of the host, which paths the host refuses to
//! write or remove, and how systemctl ends. A file is written whole or not at
//! all.

use vstd::prelude::*;
use crate::error::{CreateError, ErrorKind};
use crate::linux::{
    unit_file_path, unit_file_text, CreateOp, CreateStage, DeleteOp, ExistsOp, Reply, RequestView,
    ServiceConfig,
};

verus! {

/// What the host holds.
pub struct Host {
    /// The files of the host, by their paths
    pub files: Map<Seq<char>, Seq<char>>,
    /// The paths at which the host refuses to write or remove a file
    pub refused: Set<Seq<char>>,
    /// How a call of systemctl ends: with success or failure, or not at all
    /// where systemctl cannot be called
    pub systemctl: Option<bool>,
    /// The error of a request that the host cannot carry out
    pub error: std::io::Error,
}

impl Host {
    /// The host after a request, and its reply.
    pub open spec fn answer(self, request: RequestView) -> (Host, Reply) {
        match request {
            RequestView::ProbeFile { path } => (
                self,
                Reply::Present(self.files.contains_key(path)),
            ),
            RequestView::WriteFile { path, content } => if self.refused.contains(path) {
                (self, Reply::IoFailed(self.error))
            } else {
                (Host { files: self.files.insert(path, content), ..self }, Reply::Completed)
            },
            RequestView::RemoveFile { path } => if self.files.contains_key(path)
                && !self.refused.contains(path) {
                (Host { files: self.files.remove(path), ..self }, Reply::Completed)
            } else {
                (self, Reply::IoFailed(self.error))
            },
            RequestView::Systemctl { arguments } => match self.systemctl {
                Some(success) => (self, Reply::Exited { success }),
                None => (self, Reply::IoFailed(self.error)),
            },
        }
    }
}

impl ExistsOp {
    /// The host and the probe after the probe has been driven to its end.
    pub open spec fn against(self, host: Host) -> (Host, ExistsOp) {
        match self.spec_pending() {
            None => (host, self),
            Some(request) => {
                let (next, reply) = host.answer(request);
                (next, self.spec_advance(reply))
            },
        }
    }
}

impl DeleteOp {
    /// The host and the operation after the operation has been driven to its
    /// end.
    pub open spec fn against(self, host: Host) -> (Host, DeleteOp) {
        match self.spec_pending() {
            None => (host, self),
            Some(request) => {
                let (next, reply) = host.answer(request);
                (next, self.spec_advance(reply))
            },
        }
    }
}

impl CreateOp {
    /// How many requests the operation puts at most before it ends.
    pub open spec fn steps_left(self) -> nat {
        match self.stage {
            CreateStage::Probe => 3,
            CreateStage::WriteFile => 2,
            CreateStage::Reload => 1,
            CreateStage::Finished(_) => 0,
        }
    }

    /// The host and the operation after the operation has been driven to its
    /// end.
    pub open spec fn against(self, host: Host) -> (Host, CreateOp)
        decreases self.steps_left(),
    {
        match self.spec_pending() {
            None => (host, self),
            Some(request) => {
                let (next, reply) = host.answer(request);
                self.spec_advance(reply).against(next)
            },
        }
    }
}

/// Whether a probe is the one that `is_installed` begins for a service of
/// this name.
pub open spec fn probes(probe: ExistsOp, name: Seq<char>) -> bool {
    probe.path@ == unit_file_path(name) && probe.found is None
}

/// Whether an operation is the one that `create` begins for a service of
/// this name.
pub open spec fn creates(create: CreateOp, name: Seq<char>, config: ServiceConfig) -> bool {
    &&& create.path@ == unit_file_path(name)
    &&& create.content@ == unit_file_text(config)
    &&& create.stage is Probe
}

/// Whether an operation is the one that `delete` begins for a service of
/// this name.
pub open spec fn deletes(delete: DeleteOp, name: Seq<char>) -> bool {
    delete.path@ == unit_file_path(name) && delete.result is None
}

/// The probe finds a service exactly where its unit file is there, and
/// leaves the host as it is.
pub proof fn lemma_probe_finds_unit_file(host: Host, probe: ExistsOp, name: Seq<char>)
    requires
        probes(probe, name),
    ensures
        probe.against(host).1.found == Some(host.files.contains_key(unit_file_path(name))),
        probe.against(host).0 == host,
{
}

/// What the creation of a service comes to, on whatever host.
///
/// Where the unit file is there already, the creation is rejected and the
/// host is left as it is. Where the host refuses to write the unit file, the
/// creation fails with the error of the host, and no file is left, whole or
/// in part. Otherwise the unit file is there afterwards, whole, with the
/// text that the configuration gives, and the creation succeeds exactly
/// where systemctl reloads the units with success.
pub proof fn lemma_create_outcome(
    host: Host,
    name: Seq<char>,
    config: ServiceConfig,
    create: CreateOp,
)
    requires
        creates(create, name, config),
    ensures
        ({
            let path = unit_file_path(name);
            let (after, done) = create.against(host);
            &&& done.spec_outcome() matches Some(result) && if host.files.contains_key(path) {
                &&& result == Err::<(), CreateError>(CreateError::AlreadyExists)
                &&& after == host
            } else if host.refused.contains(path) {
                &&& result == Err::<(), CreateError>(CreateError::FileIoError(host.error))
                &&& after == host
            } else {
                &&& after.files == host.files.insert(path, unit_file_text(config))
                &&& match host.systemctl {
                    Some(true) => result == Ok::<(), CreateError>(()),
                    Some(false) => result == Err::<(), CreateError>(CreateError::SystemCtlFailed),
                    None => result == Err::<(), CreateError>(CreateError::NoSystemCtl),
                }
            }
        }),
{
    reveal_with_fuel(CreateOp::against, 4);
}

/// A service that was never installed is not found. After its creation has
/// succeeded it is found, and after its removal has succeeded it is not
/// found again.
pub proof fn lemma_create_delete_round_trip(
    host: Host,
    name: Seq<char>,
    config: ServiceConfig,
    probe: ExistsOp,
    create: CreateOp,
    delete: DeleteOp,
)
    requires
        probes(probe, name),
        creates(create, name, config),
        deletes(delete, name),
        !host.files.contains_key(unit_file_path(name)),
        create.against(host).1.spec_outcome() == Some(Ok::<(), CreateError>(())),
        delete.against(create.against(host).0).1.result == Some(Ok::<(), std::io::Error>(())),
    ensures
        probe.against(host).1.found == Some(false),
        ({
            let created = create.against(host).0;
            let deleted = delete.against(created).0;
            &&& probe.against(created).1.found == Some(true)
            &&& probe.against(deleted).1.found == Some(false)
            &&& deleted.files == host.files
        }),
{
    lemma_create_outcome(host, name, config, create);
    let created = create.against(host).0;
    let deleted = delete.against(created).0;
    assert(deleted.files =~= host.files);
}

/// A service cannot be created twice: after a creation that succeeded, a
/// second one under the same name, with whatever configuration, is rejected
/// and changes nothing.
pub proof fn lemma_second_create_is_rejected(
    host: Host,
    name: Seq<char>,
    config: ServiceConfig,
    again: ServiceConfig,
    first: CreateOp,
    second: CreateOp,
)
    requires
        creates(first, name, config),
        creates(second, name, again),
        first.against(host).1.spec_outcome() == Some(Ok::<(), CreateError>(())),
    ensures
        ({
            let created = first.against(host).0;
            let (after, done) = second.against(created);
            &&& done.spec_outcome() == Some(
                Err::<(), CreateError>(CreateError::AlreadyExists),
            )
            &&& CreateError::AlreadyExists.spec_kind() == ErrorKind::OperationRejected
            &&& after == created
        }),
{
    lemma_create_outcome(host, name, config, first);
    lemma_create_outcome(first.against(host).0, name, again, second);
}

/// The removal of a service whose unit file is not there is an error, and
/// changes nothing.
pub proof fn lemma_delete_of_missing_is_an_error(host: Host, name: Seq<char>, delete: DeleteOp)
    requires
        deletes(delete, name),
        !host.files.contains_key(unit_file_path(name)),
    ensures
        delete.against(host).1.result == Some(Err::<(), std::io::Error>(host.error)),
        delete.against(host).0 == host,
{
}

} // verus!
