//! Forking a backup (`POST /api/backups/:id/fork`): copying a backup that is
//! public, or the caller's own, onto one of the caller's devices as a private
//! backup of the caller. The workflow is a state machine: each step takes what
//! the last Supabase call returned and says what to do next.

use vstd::prelude::*;
use vstd::string::*;

use crate::error::ApiError;
use crate::models::{Backup, CurrentUser, Device, ForkBackupRequest, NewBackup};

verus! {

/// Where a fork stands.
#[derive(Debug, PartialEq)]
pub enum ForkPhase {
    /// The backup to copy has been asked for.
    AwaitingSource,
    /// The backup to copy is known; the target device has been asked for.
    AwaitingTarget { source: Backup },
    /// The copy has been asked to be written.
    AwaitingCopy,
    /// The fork is over.
    Done,
}

/// What the last Supabase call returned.
#[derive(Debug, PartialEq)]
pub enum ForkEvent {
    /// The lookup of the backup to copy.
    SourceFound(Option<Backup>),
    /// The lookup of the target device.
    TargetFound(Option<Device>),
    /// The copy as Supabase wrote it.
    Copied(Backup),
    /// The last Supabase call failed with this error.
    Failed(ApiError),
}

/// What to do next.
#[derive(Debug, PartialEq)]
pub enum ForkAction {
    /// Look up the backup with this id, as the caller may see it.
    FetchBackup(u128),
    /// Look up the device with this id, as the caller may see it.
    FetchDevice(u128),
    /// Write this backup row.
    CreateBackup(NewBackup),
    /// Answer with `status` and `backup`; then, without waiting or reading the
    /// outcome, add one to the fork count of backup `count_fork_of`.
    Respond { status: u16, backup: Backup, count_fork_of: u128 },
    /// Answer with this error.
    Fail(ApiError),
}

/// The name of a copy: the requested one, else the source's name followed by ` (Fork)`.
pub open spec fn fork_name(requested: Option<String>, source_name: Seq<char>) -> Seq<char> {
    match requested {
        Some(name) => name@,
        None => source_name + " (Fork)"@,
    }
}

/// A requested name is used as it is, whatever its length and whatever the
/// source is called; without one, the copy is named after the source, whose
/// name it begins with, followed by the seven characters ` (Fork)`.
pub proof fn law_fork_name(requested: Option<String>, source_name: Seq<char>)
    ensures
        requested matches Some(n) ==> fork_name(requested, source_name) == n@,
        requested matches Some(n) ==> forall|other: Seq<char>| fork_name(requested, other) == fork_name(requested, source_name),
        requested is None ==> fork_name(requested, source_name).len() == source_name.len() + 7,
        requested is None ==> fork_name(requested, source_name).take(source_name.len() as int) == source_name,
        requested is None ==> fork_name(requested, source_name) == source_name + " (Fork)"@,
{
    if requested is None {
        reveal_strlit(" (Fork)");
        assert(fork_name(requested, source_name).take(source_name.len() as int) =~= source_name);
    }
}

/// May `user_id` copy `source`: it is public or theirs.
pub open spec fn may_copy(source: Backup, user_id: u128) -> bool {
    source.is_public || source.user_id == user_id
}

/// One fork of one backup by one caller.
pub struct ForkJob {
    user_id: u128,
    backup_id: u128,
    target_device_id: u128,
    name: Option<String>,
    phase: ForkPhase,
}

impl ForkJob {
    /// A backup waiting for its device lookup is one the caller may copy.
    #[verifier::type_invariant]
    spec fn source_is_copyable(self) -> bool {
        match self.phase {
            ForkPhase::AwaitingTarget { source } => may_copy(source, self.user_id),
            _ => true,
        }
    }

    /// The caller.
    pub closed spec fn owner(self) -> u128 {
        self.user_id
    }

    /// The backup to copy.
    pub closed spec fn source_id(self) -> u128 {
        self.backup_id
    }

    /// The device to copy onto.
    pub closed spec fn target(self) -> u128 {
        self.target_device_id
    }

    /// The requested name of the copy.
    pub closed spec fn requested_name(self) -> Option<String> {
        self.name
    }

    /// Where the fork stands.
    pub closed spec fn phase(self) -> ForkPhase {
        self.phase
    }

    /// The fork of backup `backup_id` by `user` that `request` asks for; it
    /// begins with the lookup of that backup.
    pub fn start(user: &CurrentUser, backup_id: u128, request: ForkBackupRequest) -> (r: (
        ForkJob,
        ForkAction,
    ))
        ensures
            r.0.owner() == user.id,
            r.0.source_id() == backup_id,
            r.0.target() == request.target_device_id,
            r.0.requested_name() == request.name,
            r.0.phase() == ForkPhase::AwaitingSource,
            r.1 == ForkAction::FetchBackup(backup_id),
    {
        let job = ForkJob {
            user_id: user.id,
            backup_id,
            target_device_id: request.target_device_id,
            name: request.name,
            phase: ForkPhase::AwaitingSource,
        };
        (job, ForkAction::FetchBackup(backup_id))
    }

    /// One step of the fork: what `event` means for it and what to do next.
    /// A failed Supabase call ends the fork with its error.
    /// A missing backup is `NotFound`, another user's private backup
    /// `Forbidden`, a missing device `BadRequest`, another user's device
    /// `Forbidden`; a copy is written only of a backup the caller may copy,
    /// onto the caller's device, owned by the caller and private, and the
    /// answer is `201` with the copy.
    pub fn fork_backup(self, event: ForkEvent) -> (r: (ForkJob, ForkAction))
        ensures
            r.0.owner() == self.owner(),
            r.0.source_id() == self.source_id(),
            r.0.target() == self.target(),
            match (self.phase(), event) {
                (_, ForkEvent::Failed(e)) => r.0.phase() == ForkPhase::Done && r.1
                    == ForkAction::Fail(e),
                (ForkPhase::AwaitingSource, ForkEvent::SourceFound(None)) => r.0.phase()
                    == ForkPhase::Done && (r.1 matches ForkAction::Fail(ApiError::NotFound(m))
                    && m@ == "Backup not found or is private"@),
                (ForkPhase::AwaitingSource, ForkEvent::SourceFound(Some(source))) => if may_copy(
                    source,
                    self.owner(),
                ) {
                    r.0.phase() == ForkPhase::AwaitingTarget { source } && r.1
                        == ForkAction::FetchDevice(self.target()) && r.0.requested_name()
                        == self.requested_name()
                } else {
                    r.0.phase() == ForkPhase::Done && (r.1 matches ForkAction::Fail(
                        ApiError::Forbidden(m),
                    ) && m@ == "Cannot fork a private backup"@)
                },
                (ForkPhase::AwaitingTarget { source }, ForkEvent::TargetFound(None)) => r.0.phase()
                    == ForkPhase::Done && (r.1 matches ForkAction::Fail(ApiError::BadRequest(m))
                    && m@ == "Target device does not exist or does not belong to you"@),
                (ForkPhase::AwaitingTarget { source }, ForkEvent::TargetFound(Some(device))) => if device.user_id
                    == self.owner() {
                    r.0.phase() == ForkPhase::AwaitingCopy && (r.1 matches ForkAction::CreateBackup(
                        row,
                    ) && row.user_id == self.owner() && row.device_id == self.target()
                        && row.name@ == fork_name(self.requested_name(), source.name@)
                        && row.manifest == source.manifest && row.status@ == "ready"@
                        && row.is_public == Some(false))
                } else {
                    r.0.phase() == ForkPhase::Done && (r.1 matches ForkAction::Fail(
                        ApiError::Forbidden(m),
                    ) && m@ == "Target device does not belong to you"@)
                },
                (ForkPhase::AwaitingCopy, ForkEvent::Copied(copy)) => r.0.phase() == ForkPhase::Done
                    && r.1 == ForkAction::Respond {
                    status: 201,
                    backup: copy,
                    count_fork_of: self.source_id(),
                },
                _ => r.0.phase() == ForkPhase::Done && r.1 == ForkAction::Fail(ApiError::Internal),
            },
            r.1 matches ForkAction::CreateBackup(row) ==> {
                &&& self.phase() matches ForkPhase::AwaitingTarget { source }
                &&& source.is_public || source.user_id == self.owner()
                &&& row.manifest == source.manifest
                &&& event matches ForkEvent::TargetFound(Some(device))
                &&& device.user_id == self.owner()
                &&& row.user_id == self.owner()
                &&& row.device_id == self.target()
                &&& row.is_public == Some(false)
                &&& (self.requested_name() matches Some(n) ==> row.name@ == n@)
                &&& (self.requested_name() is None ==> row.name@ == source.name@ + " (Fork)"@)
            },
    {
        proof {
            use_type_invariant(&self);
        }
        let ForkJob { user_id, backup_id, target_device_id, name, phase } = self;
        let event = match event {
            ForkEvent::Failed(error) => {
                let job = ForkJob {
                    user_id,
                    backup_id,
                    target_device_id,
                    name: None,
                    phase: ForkPhase::Done,
                };
                return (job, ForkAction::Fail(error));
            },
            other => other,
        };
        match phase {
            ForkPhase::AwaitingSource => match event {
                ForkEvent::SourceFound(None) => {
                    let job = ForkJob {
                        user_id,
                        backup_id,
                        target_device_id,
                        name,
                        phase: ForkPhase::Done,
                    };
                    (
                        job,
                        ForkAction::Fail(
                            ApiError::NotFound(String::from_str("Backup not found or is private")),
                        ),
                    )
                },
                ForkEvent::SourceFound(Some(source)) => {
                    if !source.is_public && source.user_id != user_id {
                        let job = ForkJob {
                            user_id,
                            backup_id,
                            target_device_id,
                            name,
                            phase: ForkPhase::Done,
                        };
                        (
                            job,
                            ForkAction::Fail(
                                ApiError::Forbidden(String::from_str("Cannot fork a private backup")),
                            ),
                        )
                    } else {
                        let job = ForkJob {
                            user_id,
                            backup_id,
                            target_device_id,
                            name,
                            phase: ForkPhase::AwaitingTarget { source },
                        };
                        (job, ForkAction::FetchDevice(target_device_id))
                    }
                },
                _ => ForkJob::out_of_turn(user_id, backup_id, target_device_id),
            },
            ForkPhase::AwaitingTarget { source } => match event {
                ForkEvent::TargetFound(None) => {
                    let job = ForkJob {
                        user_id,
                        backup_id,
                        target_device_id,
                        name,
                        phase: ForkPhase::Done,
                    };
                    (
                        job,
                        ForkAction::Fail(
                            ApiError::BadRequest(
                                String::from_str(
                                    "Target device does not exist or does not belong to you",
                                ),
                            ),
                        ),
                    )
                },
                ForkEvent::TargetFound(Some(device)) => {
                    if device.user_id != user_id {
                        let job = ForkJob {
                            user_id,
                            backup_id,
                            target_device_id,
                            name,
                            phase: ForkPhase::Done,
                        };
                        (
                            job,
                            ForkAction::Fail(
                                ApiError::Forbidden(
                                    String::from_str("Target device does not belong to you"),
                                ),
                            ),
                        )
                    } else {
                        let copy_name = match name {
                            Some(requested) => requested,
                            None => {
                                let mut generated = source.name;
                                generated.append(" (Fork)");
                                generated
                            },
                        };
                        let row = NewBackup {
                            user_id,
                            device_id: target_device_id,
                            name: copy_name,
                            manifest: source.manifest,
                            status: String::from_str("ready"),
                            is_public: Some(false),
                        };
                        let job = ForkJob {
                            user_id,
                            backup_id,
                            target_device_id,
                            name: None,
                            phase: ForkPhase::AwaitingCopy,
                        };
                        (job, ForkAction::CreateBackup(row))
                    }
                },
                _ => ForkJob::out_of_turn(user_id, backup_id, target_device_id),
            },
            ForkPhase::AwaitingCopy => match event {
                ForkEvent::Copied(copy) => {
                    let job = ForkJob {
                        user_id,
                        backup_id,
                        target_device_id,
                        name,
                        phase: ForkPhase::Done,
                    };
                    (job, ForkAction::Respond { status: 201, backup: copy, count_fork_of: backup_id })
                },
                _ => ForkJob::out_of_turn(user_id, backup_id, target_device_id),
            },
            ForkPhase::Done => ForkJob::out_of_turn(user_id, backup_id, target_device_id),
        }
    }

    /// A finished job and an `Internal` error, for an event that does not fit the phase.
    fn out_of_turn(user_id: u128, backup_id: u128, target_device_id: u128) -> (r: (
        ForkJob,
        ForkAction,
    ))
        ensures
            r.0.owner() == user_id,
            r.0.source_id() == backup_id,
            r.0.target() == target_device_id,
            r.0.phase() == ForkPhase::Done,
            r.1 == ForkAction::Fail(ApiError::Internal),
    {
        let job = ForkJob {
            user_id,
            backup_id,
            target_device_id,
            name: None,
            phase: ForkPhase::Done,
        };
        (job, ForkAction::Fail(ApiError::Internal))
    }
}

} // verus!
