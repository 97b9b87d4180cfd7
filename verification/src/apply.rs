//! Applying a plan: the decisions between the host actions.
//!
//! A run is a state machine. Each call hands back the next host action;
//! the caller performs it and reports how it went as an event. The run
//! backs up the ESP and the boot configuration before it stages anything,
//! undoes the staging when registering or verifying the boot entry fails,
//! and reports an applied operation only after the entry was verified.

use vstd::prelude::*;
use crate::error::{AppError, AppErrorKind};
use crate::journal::{
    backup_manifest_text, join_path, joined, joined_twice, journal_file_name, lemma_word_plain,
    manifest_lines, ordinary_path, plain_component, FileJournalStore,
};
use crate::json::{join_spec, views};
use crate::model::{
    ExecutionPlan, MachineProbe, OperationJournal, OperationStatus, PayloadKind,
};
use crate::plan_file::plan_file_spec;
use crate::record_file::record_file_spec;
use crate::service::{
    checkpoint_journal, checkpoint_journal_spec, entry_display_name, entry_display_name_spec,
    identifiers_are_plain, loader_spec_lines, metadata_file_names_spec, operation_id_for,
    operation_id_spec, payload_check, probe_check, unverified_entry_error, validate_payload,
    validate_probe, winpe_journal, winpe_journal_spec, winpe_loader_spec_text,
};
use crate::windows::{BackupCheckpoint, BootEntryRegistration, WinPeStaging};

verus! {

broadcast use vstd::seq_lib::group_seq_properties;

/// Where a run stands: which action's outcome it waits for.
#[derive(Debug, Clone, Copy, PartialEq, Eq, Structural)]
pub enum ApplyPhase {
    Preparing,
    Checkpointing,
    WritingManifest,
    Staging,
    Registering,
    WritingLoaderSpec,
    WritingMetadata,
    Verifying,
    Restoring,
    Removing,
    Saving,
    Finished,
}

/// A host action for the caller to perform.
pub enum ApplyAction {
    /// Create the operations and backups directories and the operation's
    /// directory, and save the plan text there.
    PrepareOperation {
        operations_dir: String,
        backups_dir: String,
        operation_dir: String,
        plan_path: String,
        plan_text: String,
    },
    /// Back up the ESP and export the boot configuration below `backup_root`.
    CreateCheckpoint { backup_root: String },
    /// Create `backup_root` and write the backup manifest in it.
    WriteBackupManifest { backup_root: String, manifest_path: String, contents: String },
    /// Copy the WinPE payload into the managed location.
    StagePayload { source_path: String, target_volume: String, operation_id: String },
    /// Register the staged payload as an additive boot entry.
    RegisterEntry { staging: WinPeStaging, display_name: String },
    /// Write the loader settings.
    WriteLoaderSpec { path: String, contents: String },
    /// Write each metadata file (path, contents).
    WriteMetadata { files: Vec<(String, String)> },
    /// Check that the boot entry is registered.
    VerifyEntry { entry_id: String },
    /// Import the exported boot configuration back; the outcome is ignored.
    RestoreBootConfig { bcd_store_path: String },
    /// Remove the staged payload; the outcome is ignored.
    RemoveStagedPayload { stage_root: String, esp_stage_root: String },
    /// Save the journal record.
    SaveJournal { path: String, contents: String },
    /// The run is over with this outcome.
    Finish(Result<OperationJournal, AppError>),
}

/// How the last action went.
pub enum ApplyEvent {
    /// An action without a result succeeded.
    Completed,
    /// An action failed.
    Failed(AppError),
    /// The backup checkpoint was created.
    CheckpointCreated(BackupCheckpoint),
    /// The payload was staged.
    PayloadStaged(WinPeStaging),
    /// The boot entry was registered.
    EntryRegistered(BootEntryRegistration),
    /// The entry check ran: whether the entry is registered.
    EntryChecked(bool),
}

/// The plan text a preparing action saves, if it is one.
pub open spec fn plan_text_of(action: ApplyAction) -> Seq<char> {
    match action {
        ApplyAction::PrepareOperation { plan_text, .. } => plan_text@,
        _ => Seq::empty(),
    }
}

/// Whether a run in `phase` takes `event` as the outcome of its action.
pub open spec fn accepts_spec(phase: ApplyPhase, event: ApplyEvent) -> bool {
    match phase {
        ApplyPhase::Preparing | ApplyPhase::WritingManifest | ApplyPhase::WritingLoaderSpec
        | ApplyPhase::WritingMetadata | ApplyPhase::Restoring | ApplyPhase::Removing
        | ApplyPhase::Saving => event is Completed || event is Failed,
        ApplyPhase::Checkpointing => event is CheckpointCreated || event is Failed,
        ApplyPhase::Staging => event is PayloadStaged || event is Failed,
        ApplyPhase::Registering => event is EntryRegistered || event is Failed,
        ApplyPhase::Verifying => event is EntryChecked || event is Failed,
        ApplyPhase::Finished => false,
    }
}

/// The phases after the backup checkpoint and before the run ends or saves.
pub open spec fn after_checkpoint(phase: ApplyPhase) -> bool {
    phase is WritingManifest || staging_phase(phase)
}

/// The phases that belong to staging a WinPE payload.
pub open spec fn staging_phase(phase: ApplyPhase) -> bool {
    phase is Staging || holds_staging(phase)
}

/// The phases in which a staged payload exists.
pub open spec fn holds_staging(phase: ApplyPhase) -> bool {
    phase is Registering || holds_registration(phase) || phase is Restoring || phase is Removing
}

/// The phases in which a registered entry exists.
pub open spec fn holds_registration(phase: ApplyPhase) -> bool {
    phase is WritingLoaderSpec || phase is WritingMetadata || phase is Verifying
}

/// The contents of the metadata files of a WinPE operation, in the order
/// of `metadata_file_names_spec`.
pub open spec fn metadata_contents(
    staging: WinPeStaging,
    registration: BootEntryRegistration,
    loader_spec_path: Seq<char>,
) -> Seq<Seq<char>> {
    seq![
        registration.entry_id@,
        staging.stage_root@,
        staging.esp_stage_root@,
        staging.boot_wim_path@,
        staging.boot_sdi_path@,
        loader_spec_path,
    ]
}

/// A run of applying one plan.
pub struct ApplyRun {
    pub plan: ExecutionPlan,
    pub operation_id: String,
    pub operation_dir: String,
    pub backup_root: String,
    pub manifest_path: String,
    pub loader_spec_path: String,
    pub journal_path: String,
    pub phase: ApplyPhase,
    pub checkpoint: Option<BackupCheckpoint>,
    pub staging: Option<WinPeStaging>,
    pub registration: Option<BootEntryRegistration>,
    pub failure: Option<AppError>,
    pub journal: Option<OperationJournal>,
    /// Whether an entry check found the registered entry.
    pub entry_verified: bool,
}

fn empty_run(plan: ExecutionPlan) -> (r: ApplyRun)
    ensures
        r.plan == plan,
        r.phase == ApplyPhase::Finished,
        !r.entry_verified,
        r.wf(),
{
    ApplyRun {
        plan,
        operation_id: String::new(),
        operation_dir: String::new(),
        backup_root: String::new(),
        manifest_path: String::new(),
        loader_spec_path: String::new(),
        journal_path: String::new(),
        phase: ApplyPhase::Finished,
        checkpoint: None,
        staging: None,
        registration: None,
        failure: None,
        journal: None,
        entry_verified: false,
    }
}

/// The run's fixed part: the plan, the identifier and the paths.
pub open spec fn same_setting(a: ApplyRun, b: ApplyRun) -> bool {
    &&& a.plan == b.plan
    &&& a.operation_id == b.operation_id
    &&& a.operation_dir == b.operation_dir
    &&& a.backup_root == b.backup_root
    &&& a.manifest_path == b.manifest_path
    &&& a.loader_spec_path == b.loader_spec_path
    &&& a.journal_path == b.journal_path
}

impl ApplyRun {
    /// What each phase holds: the checkpoint once it exists, the staging
    /// and registration while the WinPE steps run, the failure to report
    /// while undoing, and the journal to save; an applied journal only
    /// after the entry was verified.
    pub open spec fn wf(&self) -> bool {
        &&& after_checkpoint(self.phase) ==> self.checkpoint is Some
        &&& staging_phase(self.phase) ==> self.plan.payload.kind == PayloadKind::WinPe
        &&& holds_staging(self.phase) ==> self.staging is Some
        &&& holds_registration(self.phase) ==> self.registration is Some
        &&& (self.phase is Restoring || self.phase is Removing) ==> self.failure is Some
        &&& self.phase is Saving ==> self.journal is Some
        &&& self.phase is Saving && self.journal->0.status == OperationStatus::Applied
            ==> self.entry_verified
    }

    /// Whether the run takes `event` now.
    pub fn accepts(&self, event: &ApplyEvent) -> (r: bool)
        ensures
            r == accepts_spec(self.phase, *event),
    {
        match self.phase {
            ApplyPhase::Preparing | ApplyPhase::WritingManifest | ApplyPhase::WritingLoaderSpec
            | ApplyPhase::WritingMetadata | ApplyPhase::Restoring | ApplyPhase::Removing
            | ApplyPhase::Saving => match event {
                ApplyEvent::Completed | ApplyEvent::Failed(_) => true,
                _ => false,
            },
            ApplyPhase::Checkpointing => match event {
                ApplyEvent::CheckpointCreated(_) | ApplyEvent::Failed(_) => true,
                _ => false,
            },
            ApplyPhase::Staging => match event {
                ApplyEvent::PayloadStaged(_) | ApplyEvent::Failed(_) => true,
                _ => false,
            },
            ApplyPhase::Registering => match event {
                ApplyEvent::EntryRegistered(_) | ApplyEvent::Failed(_) => true,
                _ => false,
            },
            ApplyPhase::Verifying => match event {
                ApplyEvent::EntryChecked(_) | ApplyEvent::Failed(_) => true,
                _ => false,
            },
            ApplyPhase::Finished => false,
        }
    }

    /// Starts applying `plan` on a host with the given probe, at clock
    /// reading `now` (seconds since the Unix epoch), recording in `store`.
    /// The host and the payload are checked first; a refused one ends the
    /// run at once.
    pub fn start(store: &FileJournalStore, plan: ExecutionPlan, probe: &MachineProbe, now: u64) -> (res: (
        ApplyRun,
        ApplyAction,
    ))
        ensures
            res.0.wf(),
            res.0.plan == plan,
            !res.0.entry_verified,
            match probe_check(probe@) {
                Some(m) => res.0.phase == ApplyPhase::Finished && (res.1 matches ApplyAction::Finish(
                    Err(e),
                ) && e.is(AppErrorKind::UnsupportedEnvironment, m)),
                None => match payload_check(plan.payload@) {
                    Some(m) => res.0.phase == ApplyPhase::Finished && (res.1 matches ApplyAction::Finish(
                        Err(e),
                    ) && e.is(AppErrorKind::Validation, m)),
                    None => {
                        let run = res.0;
                        &&& run.phase == ApplyPhase::Preparing
                        &&& run.operation_id@ == operation_id_spec(now)
                        &&& res.1 is PrepareOperation
                        &&& plan_text_of(res.1) == plan_file_spec(plan@)
                        &&& ordinary_path(store.root_view()) ==> {
                            &&& joined_twice(store.root_view(), "operations"@, run.operation_id@, run.operation_dir@)
                            &&& ordinary_path(run.operation_dir@)
                            &&& joined(run.operation_dir@, "loader-spec.txt"@, run.loader_spec_path@)
                            &&& joined_twice(
                                store.root_view(),
                                "operations"@,
                                journal_file_name(run.operation_id@),
                                run.journal_path@,
                            )
                            &&& plain_component(plan.plan_id@) ==> joined_twice(
                                store.root_view(),
                                "backups"@,
                                plan.plan_id@,
                                run.backup_root@,
                            ) && joined(run.backup_root@, "manifest.txt"@, run.manifest_path@)
                            &&& res.1 matches ApplyAction::PrepareOperation {
                                operations_dir,
                                backups_dir,
                                operation_dir,
                                plan_path,
                                plan_text,
                            } && joined(store.root_view(), "operations"@, operations_dir@) && joined(
                                store.root_view(),
                                "backups"@,
                                backups_dir@,
                            ) && operation_dir == run.operation_dir && joined(
                                run.operation_dir@,
                                "plan.pbplan"@,
                                plan_path@,
                            )
                        }
                    },
                },
            },
    {
        match validate_probe(probe) {
            Err(e) => {
                return (empty_run(plan), ApplyAction::Finish(Err(e)));
            },
            Ok(()) => {},
        }
        match validate_payload(&plan.payload) {
            Err(e) => {
                return (empty_run(plan), ApplyAction::Finish(Err(e)));
            },
            Ok(()) => {},
        }
        proof {
            identifiers_are_plain(now);
            reveal_strlit("manifest.txt");
            reveal_strlit("loader-spec.txt");
            reveal_strlit("plan.pbplan");
            lemma_word_plain("manifest.txt"@);
            lemma_word_plain("loader-spec.txt"@);
            lemma_word_plain("plan.pbplan"@);
        }
        let operation_id = operation_id_for(now);
        let operation_dir = store.operation_dir(operation_id.as_str());
        let backup_root = store.backup_root_for_plan(plan.plan_id.as_str());
        let manifest_path = join_path(backup_root.as_str(), "manifest.txt");
        let loader_spec_path = join_path(operation_dir.as_str(), "loader-spec.txt");
        let journal_path = store.journal_path(operation_id.as_str());
        let plan_path = join_path(operation_dir.as_str(), "plan.pbplan");
        let plan_text = plan.to_plan_file();
        let action = ApplyAction::PrepareOperation {
            operations_dir: store.operations_dir(),
            backups_dir: store.backups_dir(),
            operation_dir: operation_dir.clone(),
            plan_path,
            plan_text,
        };
        let run = ApplyRun {
            plan,
            operation_id,
            operation_dir,
            backup_root,
            manifest_path,
            loader_spec_path,
            journal_path,
            phase: ApplyPhase::Preparing,
            checkpoint: None,
            staging: None,
            registration: None,
            failure: None,
            journal: None,
            entry_verified: false,
        };
        (run, action)
    }
}

impl ApplyRun {
    /// Takes the outcome of the last action and decides the next one.
    ///
    /// A failed action ends the run with its error, except after the
    /// payload was staged: a failed registration, or an entry check that
    /// does not find the entry, first restores the boot configuration,
    /// then removes the staged payload, and only then ends the run with
    /// the error; the outcomes of those two undo actions are ignored.
    pub fn step(&mut self, event: ApplyEvent) -> (action: ApplyAction)
        requires
            old(self).wf(),
            accepts_spec(old(self).phase, event),
        ensures
            final(self).wf(),
            same_setting(*old(self), *final(self)),
            final(self).entry_verified == (old(self).entry_verified || (old(self).phase
                == ApplyPhase::Verifying && event == ApplyEvent::EntryChecked(true))),
            action matches ApplyAction::Finish(Ok(j)) ==> (j.status == OperationStatus::Applied
                ==> final(self).entry_verified),
            (action is StagePayload || action is RegisterEntry) ==> final(self).checkpoint is Some,
            // An action failed outside the undo steps: the run ends with its error.
            event matches ApplyEvent::Failed(e) ==> (!(old(self).phase is Registering || old(self).phase is Restoring || old(self).phase is Removing) ==> final(self).phase
                == ApplyPhase::Finished && action == ApplyAction::Finish(Err(e))),
            old(self).phase is Preparing && event is Completed ==> final(self).phase
                == ApplyPhase::Checkpointing && action == (ApplyAction::CreateCheckpoint {
                backup_root: old(self).backup_root,
            }),
            event matches ApplyEvent::CheckpointCreated(cp) ==> (old(self).phase is Checkpointing
                ==> final(self).phase == ApplyPhase::WritingManifest && final(self).checkpoint
                == Some(cp) && (action matches ApplyAction::WriteBackupManifest {
                backup_root,
                manifest_path,
                contents,
            } && backup_root == old(self).backup_root && manifest_path == old(self).manifest_path
                && contents@ == join_spec(
                manifest_lines(
                    old(self).plan@,
                    cp.esp_backup_dir@,
                    cp.bcd_store_path@,
                    views(cp.notes@),
                ),
                "\n"@,
            ))),
            old(self).phase is WritingManifest && event is Completed && old(self).plan.payload.kind
                == PayloadKind::WinPe ==> final(self).phase == ApplyPhase::Staging && action == (
            ApplyAction::StagePayload {
                source_path: old(self).plan.payload.source_path,
                target_volume: old(self).plan.target_volume,
                operation_id: old(self).operation_id,
            }),
            old(self).phase is WritingManifest && event is Completed && old(self).plan.payload.kind
                != PayloadKind::WinPe ==> {
                let cp = old(self).checkpoint->0;
                let j = final(self).journal->0;
                &&& final(self).phase == ApplyPhase::Saving
                &&& j@ == checkpoint_journal_spec(
                    old(self).plan@,
                    old(self).operation_id@,
                    cp.esp_backup_dir@,
                    cp.bcd_store_path@,
                )
                &&& action matches ApplyAction::SaveJournal { path, contents } && path == old(self).journal_path && contents@ == record_file_spec(j@)
            },
            event matches ApplyEvent::PayloadStaged(st) ==> (old(self).phase is Staging ==> final(self).phase == ApplyPhase::Registering && final(self).staging == Some(st) && (
            action matches ApplyAction::RegisterEntry { staging, display_name } && staging == st
                && display_name@ == entry_display_name_spec(old(self).plan.payload.display_name@))),
            event matches ApplyEvent::EntryRegistered(reg) ==> old(self).phase is Registering ==> {
                let st = old(self).staging->0;
                &&& final(self).phase == ApplyPhase::WritingLoaderSpec
                &&& final(self).registration == Some(reg)
                &&& action matches ApplyAction::WriteLoaderSpec { path, contents } && path == old(self).loader_spec_path && contents@ == join_spec(
                    loader_spec_lines(
                        old(self).plan.payload.display_name@,
                        reg.entry_id@,
                        st.target_volume@,
                        st.boot_wim_path@,
                        st.boot_sdi_path@,
                        st.boot_sdi_relative_path@,
                    ),
                    "\n"@,
                )
            },
            event matches ApplyEvent::Failed(e) ==> (old(self).phase is Registering ==> final(self).phase == ApplyPhase::Restoring && final(self).failure == Some(e) && action == (
            ApplyAction::RestoreBootConfig {
                bcd_store_path: old(self).checkpoint->0.bcd_store_path,
            })),
            old(self).phase is WritingLoaderSpec && event is Completed ==> {
                let st = old(self).staging->0;
                let reg = old(self).registration->0;
                &&& final(self).phase == ApplyPhase::WritingMetadata
                &&& action matches ApplyAction::WriteMetadata { files } && files@.len() == 6 && (
                forall|i: int|
                    #![trigger files@[i]]
                    0 <= i < 6 ==> (ordinary_path(old(self).operation_dir@) ==> joined(
                        old(self).operation_dir@,
                        metadata_file_names_spec()[i],
                        files@[i].0@,
                    )) && files@[i].1@ == metadata_contents(st, reg, old(self).loader_spec_path@)[i])
            },
            old(self).phase is WritingMetadata && event is Completed ==> final(self).phase
                == ApplyPhase::Verifying && action == (ApplyAction::VerifyEntry {
                entry_id: old(self).registration->0.entry_id,
            }),
            old(self).phase is Verifying && event == ApplyEvent::EntryChecked(true) ==> {
                let cp = old(self).checkpoint->0;
                let st = old(self).staging->0;
                let reg = old(self).registration->0;
                let j = final(self).journal->0;
                &&& final(self).phase == ApplyPhase::Saving
                &&& j@ == winpe_journal_spec(
                    old(self).plan@,
                    old(self).operation_id@,
                    cp.esp_backup_dir@,
                    cp.bcd_store_path@,
                    st.stage_root@,
                    old(self).loader_spec_path@,
                    reg.entry_id@,
                    reg.display_name@,
                )
                &&& action matches ApplyAction::SaveJournal { path, contents } && path == old(self).journal_path && contents@ == record_file_spec(j@)
            },
            old(self).phase is Verifying && event == ApplyEvent::EntryChecked(false) ==> final(self).phase == ApplyPhase::Restoring && (final(self).failure matches Some(e) && e.is(
                AppErrorKind::Verification,
                "managed WinPE BCD entry "@ + old(self).registration->0.entry_id@
                    + " could not be verified after registration"@,
            )) && action == (ApplyAction::RestoreBootConfig {
                bcd_store_path: old(self).checkpoint->0.bcd_store_path,
            }),
            old(self).phase is Restoring ==> final(self).phase == ApplyPhase::Removing
                && final(self).failure == old(self).failure && action == (
            ApplyAction::RemoveStagedPayload {
                stage_root: old(self).staging->0.stage_root,
                esp_stage_root: old(self).staging->0.esp_stage_root,
            }),
            old(self).phase is Removing ==> final(self).phase == ApplyPhase::Finished && action
                == ApplyAction::Finish(Err(old(self).failure->0)),
            old(self).phase is Saving && event is Completed ==> final(self).phase
                == ApplyPhase::Finished && action == ApplyAction::Finish(Ok(old(self).journal->0)),
    {
        match event {
            ApplyEvent::Failed(e) => {
                match self.phase {
                    ApplyPhase::Registering => {
                        self.failure = Some(e);
                        self.phase = ApplyPhase::Restoring;
                        return self.restore_action();
                    },
                    ApplyPhase::Restoring => {
                        return self.remove_action();
                    },
                    ApplyPhase::Removing => {
                        return self.finish_with_failure();
                    },
                    _ => {
                        self.phase = ApplyPhase::Finished;
                        return ApplyAction::Finish(Err(e));
                    },
                }
            },
            ApplyEvent::Completed => {
                match self.phase {
                    ApplyPhase::Preparing => {
                        self.phase = ApplyPhase::Checkpointing;
                        ApplyAction::CreateCheckpoint { backup_root: self.backup_root.clone() }
                    },
                    ApplyPhase::WritingManifest => {
                        if self.plan.payload.kind == PayloadKind::WinPe {
                            self.phase = ApplyPhase::Staging;
                            ApplyAction::StagePayload {
                                source_path: self.plan.payload.source_path.clone(),
                                target_volume: self.plan.target_volume.clone(),
                                operation_id: self.operation_id.clone(),
                            }
                        } else {
                            let journal = match &self.checkpoint {
                                Some(cp) => checkpoint_journal(
                                    &self.plan,
                                    self.operation_id.as_str(),
                                    cp,
                                ),
                                None => {
                                    proof {
                                        assert(false);
                                    }
                                    return ApplyAction::Finish(Err(unverified_entry_error("")));
                                },
                            };
                            self.save(journal)
                        }
                    },
                    ApplyPhase::WritingLoaderSpec => {
                        self.phase = ApplyPhase::WritingMetadata;
                        self.metadata_action()
                    },
                    ApplyPhase::WritingMetadata => {
                        self.phase = ApplyPhase::Verifying;
                        match &self.registration {
                            Some(reg) => ApplyAction::VerifyEntry { entry_id: reg.entry_id.clone() },
                            None => {
                                proof {
                                    assert(false);
                                }
                                ApplyAction::Finish(Err(unverified_entry_error("")))
                            },
                        }
                    },
                    ApplyPhase::Restoring => self.remove_action(),
                    ApplyPhase::Removing => self.finish_with_failure(),
                    _ => {
                        let mut journal = None;
                        std::mem::swap(&mut journal, &mut self.journal);
                        self.phase = ApplyPhase::Finished;
                        match journal {
                            Some(j) => ApplyAction::Finish(Ok(j)),
                            None => {
                                proof {
                                    assert(false);
                                }
                                ApplyAction::Finish(Err(unverified_entry_error("")))
                            },
                        }
                    },
                }
            },
            ApplyEvent::CheckpointCreated(cp) => {
                let contents = backup_manifest_text(
                    &self.plan,
                    cp.esp_backup_dir.as_str(),
                    cp.bcd_store_path.as_str(),
                    cp.notes.as_slice(),
                );
                self.checkpoint = Some(cp);
                self.phase = ApplyPhase::WritingManifest;
                ApplyAction::WriteBackupManifest {
                    backup_root: self.backup_root.clone(),
                    manifest_path: self.manifest_path.clone(),
                    contents,
                }
            },
            ApplyEvent::PayloadStaged(st) => {
                let display_name = entry_display_name(self.plan.payload.display_name.as_str());
                let staging = st.duplicate();
                self.staging = Some(st);
                self.phase = ApplyPhase::Registering;
                ApplyAction::RegisterEntry { staging, display_name }
            },
            ApplyEvent::EntryRegistered(reg) => {
                let contents = match &self.staging {
                    Some(st) => winpe_loader_spec_text(
                        st,
                        &reg,
                        self.plan.payload.display_name.as_str(),
                    ),
                    None => {
                        proof {
                            assert(false);
                        }
                        return ApplyAction::Finish(Err(unverified_entry_error("")));
                    },
                };
                self.registration = Some(reg);
                self.phase = ApplyPhase::WritingLoaderSpec;
                ApplyAction::WriteLoaderSpec { path: self.loader_spec_path.clone(), contents }
            },
            ApplyEvent::EntryChecked(found) => {
                if found {
                    self.entry_verified = true;
                    let journal = match (&self.checkpoint, &self.staging, &self.registration) {
                        (Some(cp), Some(st), Some(reg)) => winpe_journal(
                            &self.plan,
                            self.operation_id.as_str(),
                            cp,
                            st,
                            reg,
                            self.loader_spec_path.as_str(),
                        ),
                        _ => {
                            proof {
                                assert(false);
                            }
                            return ApplyAction::Finish(Err(unverified_entry_error("")));
                        },
                    };
                    self.save(journal)
                } else {
                    let e = match &self.registration {
                        Some(reg) => unverified_entry_error(reg.entry_id.as_str()),
                        None => {
                            proof {
                                assert(false);
                            }
                            unverified_entry_error("")
                        },
                    };
                    self.failure = Some(e);
                    self.phase = ApplyPhase::Restoring;
                    self.restore_action()
                }
            },
        }
    }

    fn restore_action(&self) -> (action: ApplyAction)
        requires
            self.checkpoint is Some,
        ensures
            action == (ApplyAction::RestoreBootConfig {
                bcd_store_path: self.checkpoint->0.bcd_store_path,
            }),
    {
        match &self.checkpoint {
            Some(cp) => ApplyAction::RestoreBootConfig { bcd_store_path: cp.bcd_store_path.clone() },
            None => ApplyAction::Finish(Err(unverified_entry_error(""))),
        }
    }

    fn remove_action(&mut self) -> (action: ApplyAction)
        requires
            old(self).wf(),
            old(self).phase == ApplyPhase::Restoring,
        ensures
            final(self).wf(),
            *final(self) == (ApplyRun { phase: ApplyPhase::Removing, ..*old(self) }),
            action == (ApplyAction::RemoveStagedPayload {
                stage_root: old(self).staging->0.stage_root,
                esp_stage_root: old(self).staging->0.esp_stage_root,
            }),
    {
        self.phase = ApplyPhase::Removing;
        match &self.staging {
            Some(st) => ApplyAction::RemoveStagedPayload {
                stage_root: st.stage_root.clone(),
                esp_stage_root: st.esp_stage_root.clone(),
            },
            None => ApplyAction::Finish(Err(unverified_entry_error(""))),
        }
    }

    fn finish_with_failure(&mut self) -> (action: ApplyAction)
        requires
            old(self).wf(),
            old(self).phase == ApplyPhase::Removing,
        ensures
            final(self).wf(),
            same_setting(*old(self), *final(self)),
            final(self).entry_verified == old(self).entry_verified,
            final(self).phase == ApplyPhase::Finished,
            action == ApplyAction::Finish(Err(old(self).failure->0)),
    {
        let mut failure = None;
        std::mem::swap(&mut failure, &mut self.failure);
        self.phase = ApplyPhase::Finished;
        match failure {
            Some(e) => ApplyAction::Finish(Err(e)),
            None => ApplyAction::Finish(Err(unverified_entry_error(""))),
        }
    }

    fn save(&mut self, journal: OperationJournal) -> (action: ApplyAction)
        requires
            journal.status == OperationStatus::Applied ==> old(self).entry_verified,
        ensures
            *final(self) == (ApplyRun {
                phase: ApplyPhase::Saving,
                journal: Some(journal),
                ..*old(self)
            }),
            action matches ApplyAction::SaveJournal { path, contents } && path == old(self).journal_path && contents@ == record_file_spec(journal@),
    {
        let contents = journal.to_record_file();
        self.journal = Some(journal);
        self.phase = ApplyPhase::Saving;
        ApplyAction::SaveJournal { path: self.journal_path.clone(), contents }
    }

    fn metadata_action(&self) -> (action: ApplyAction)
        requires
            self.staging is Some,
            self.registration is Some,
        ensures
            action matches ApplyAction::WriteMetadata { files } && files@.len() == 6 && (forall|
                i: int,
            |
                #![trigger files@[i]]
                0 <= i < 6 ==> (ordinary_path(self.operation_dir@) ==> joined(
                    self.operation_dir@,
                    metadata_file_names_spec()[i],
                    files@[i].0@,
                )) && files@[i].1@ == metadata_contents(
                    self.staging->0,
                    self.registration->0,
                    self.loader_spec_path@,
                )[i]),
    {
        let (st, reg) = match (&self.staging, &self.registration) {
            (Some(st), Some(reg)) => (st, reg),
            _ => {
                return ApplyAction::Finish(Err(unverified_entry_error("")));
            },
        };
        let dir = self.operation_dir.as_str();
        proof {
            reveal_strlit("entry-id.txt");
            reveal_strlit("staging-root.txt");
            reveal_strlit("esp-staging-root.txt");
            reveal_strlit("boot-wim-path.txt");
            reveal_strlit("boot-sdi-path.txt");
            reveal_strlit("loader-spec-path.txt");
            lemma_word_plain("entry-id.txt"@);
            lemma_word_plain("staging-root.txt"@);
            lemma_word_plain("esp-staging-root.txt"@);
            lemma_word_plain("boot-wim-path.txt"@);
            lemma_word_plain("boot-sdi-path.txt"@);
            lemma_word_plain("loader-spec-path.txt"@);
        }
        let files = vec![
            (join_path(dir, "entry-id.txt"), reg.entry_id.clone()),
            (join_path(dir, "staging-root.txt"), st.stage_root.clone()),
            (join_path(dir, "esp-staging-root.txt"), st.esp_stage_root.clone()),
            (join_path(dir, "boot-wim-path.txt"), st.boot_wim_path.clone()),
            (join_path(dir, "boot-sdi-path.txt"), st.boot_sdi_path.clone()),
            (join_path(dir, "loader-spec-path.txt"), self.loader_spec_path.clone()),
        ];
        ApplyAction::WriteMetadata { files }
    }
}

} // verus!
