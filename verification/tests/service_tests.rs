use partbooter::apply::{ApplyAction, ApplyEvent, ApplyPhase, ApplyRun};
use partbooter::error::AppErrorKind;
use partbooter::journal::{latest_operation_id, FileJournalStore, RecordedOperation};
use partbooter::model::{
    ActionOutcome, EspInfo, ExecutionPlan, FirmwareMode, HostPlatform, MachineProbe,
    OperationJournal, OperationStatus, OperationStepRecord, PartitionStyle, PayloadKind,
    PlanStepKind, RiskLevel,
};
use partbooter::service::{
    operation_id_for, plan_id_for, timestamp_for, validate_payload, validate_probe,
    PartBooterService, WinPeEvidence,
};
use partbooter::windows::{backup_checkpoint, BootEntryRegistration, WinPeStaging};

fn supported_probe_fixture() -> MachineProbe {
    MachineProbe {
        host_platform: HostPlatform::Windows,
        firmware_mode: FirmwareMode::Uefi,
        partition_style: PartitionStyle::Gpt,
        secure_boot_enabled: true,
        bitlocker_detected: false,
        esp: EspInfo {
            volume: "\\\\?\\Volume{ESP}".to_string(),
            mount_point: "S:\\".to_string(),
            filesystem: "FAT32".to_string(),
            free_space_mb: 512,
        },
        warnings: Vec::new(),
        supported: true,
    }
}

fn fixture_service() -> PartBooterService {
    PartBooterService::new("state")
}

/// Drives an apply run the way the host does with fixture outcomes:
/// every action succeeds and the entry check finds the entry.
fn apply_with_fixtures(
    service: &PartBooterService,
    plan: &ExecutionPlan,
    probe: &MachineProbe,
    entry_found: bool,
) -> (ApplyRun, Result<OperationJournal, partbooter::error::AppError>, Vec<&'static str>) {
    let (mut run, mut action) =
        ApplyRun::start(service.journal_store(), plan.clone(), probe, 1_700_000_000);
    let mut trail = Vec::new();
    loop {
        let event = match action {
            ApplyAction::PrepareOperation { .. } => {
                trail.push("prepare");
                ApplyEvent::Completed
            }
            ApplyAction::CreateCheckpoint { backup_root } => {
                trail.push("checkpoint");
                ApplyEvent::CheckpointCreated(backup_checkpoint(
                    format!("{backup_root}/esp"),
                    format!("{backup_root}/bcd-store.bak"),
                ))
            }
            ApplyAction::WriteBackupManifest { .. } => {
                trail.push("manifest");
                ApplyEvent::Completed
            }
            ApplyAction::StagePayload { .. } => {
                trail.push("stage");
                ApplyEvent::PayloadStaged(WinPeStaging {
                    stage_root: "op/fixture-winpe".to_string(),
                    esp_stage_root: "op/fixture-esp-winpe".to_string(),
                    boot_wim_path: "op/fixture-winpe/boot.wim".to_string(),
                    boot_sdi_path: "op/fixture-winpe/boot.sdi".to_string(),
                    boot_sdi_relative_path: "\\PartBooter\\Operations\\fixture\\WinPE\\boot.sdi"
                        .to_string(),
                    target_volume: "D:".to_string(),
                })
            }
            ApplyAction::RegisterEntry { display_name, .. } => {
                trail.push("register");
                ApplyEvent::EntryRegistered(BootEntryRegistration {
                    entry_id: "{11111111-1111-1111-1111-111111111111}".to_string(),
                    ramdisk_options_id: "{ramdiskoptions}".to_string(),
                    display_name,
                })
            }
            ApplyAction::WriteLoaderSpec { .. } => {
                trail.push("loader");
                ApplyEvent::Completed
            }
            ApplyAction::WriteMetadata { .. } => {
                trail.push("metadata");
                ApplyEvent::Completed
            }
            ApplyAction::VerifyEntry { .. } => {
                trail.push("verify");
                ApplyEvent::EntryChecked(entry_found)
            }
            ApplyAction::RestoreBootConfig { .. } => {
                trail.push("restore");
                ApplyEvent::Completed
            }
            ApplyAction::RemoveStagedPayload { .. } => {
                trail.push("remove");
                ApplyEvent::Completed
            }
            ApplyAction::SaveJournal { .. } => {
                trail.push("save");
                ApplyEvent::Completed
            }
            ApplyAction::Finish(result) => return (run, result, trail),
        };
        assert!(run.accepts(&event));
        action = run.step(event);
    }
}

#[test]
fn builds_supported_linux_plan() {
    let service = fixture_service();
    let plan = service
        .build_plan(&supported_probe_fixture(), "C:\\images\\ubuntu-24.04.iso", "D:", 1_700_000_000)
        .expect("plan should succeed");

    assert_eq!(plan.payload.kind, PayloadKind::LinuxIso);
    assert_eq!(plan.steps.len(), 6);
    assert!(!plan.additive_policy.replace_default_boot_path);
}

#[test]
fn rejects_unsupported_payload() {
    let service = fixture_service();
    let error = service
        .build_plan(&supported_probe_fixture(), "C:\\images\\unknown.iso", "D:", 1_700_000_000)
        .expect_err("unknown payload should fail");
    assert_eq!(error.exit_code(), 3);
}

#[test]
fn applies_and_verifies_operation() {
    let service = fixture_service();
    let probe = supported_probe_fixture();
    let plan = service
        .build_plan(&probe, "C:\\images\\winpe_boot.wim", "D:", 1_700_000_000)
        .expect("plan should succeed");
    let (_, result, _) = apply_with_fixtures(&service, &plan, &probe, true);
    let journal = result.expect("apply should succeed");
    assert_eq!(journal.status, OperationStatus::Applied);
    assert_eq!(journal.steps[0].outcome, ActionOutcome::Completed);
    assert_eq!(journal.steps[1].kind, PlanStepKind::SnapshotBootConfig);
    assert_eq!(journal.steps[2].outcome, ActionOutcome::Completed);
    assert_eq!(journal.steps[4].outcome, ActionOutcome::Completed);

    let report = service.verify_operation(
        journal,
        true,
        true,
        Some(WinPeEvidence { staged_files_present: true, entry_registered: true }),
    );
    assert!(report.verified);
    assert!(report.backup_artifacts_present);
    assert!(report.operation_plan_present);
    assert!(report.boot_entry_registered);
    assert!(report.staged_artifacts_present);
}

#[test]
fn rolls_back_applied_winpe_operation() {
    let service = fixture_service();
    let probe = supported_probe_fixture();
    let plan = service
        .build_plan(&probe, "C:\\images\\winpe_boot.wim", "D:", 1_700_000_000)
        .expect("plan should succeed");
    let (_, result, _) = apply_with_fixtures(&service, &plan, &probe, true);
    let mut journal = result.expect("apply should succeed");
    let operation_id = journal.operation_id.clone();

    service.rollback_operation(&mut journal, &operation_id);
    assert_eq!(journal.status, OperationStatus::RolledBack);

    let report = service.verify_operation(journal, true, true, None);
    assert!(!report.staged_artifacts_present);
}

#[test]
fn rejects_unsupported_probe_fixture() {
    let mut probe = supported_probe_fixture();
    probe.firmware_mode = FirmwareMode::Bios;
    probe.supported = false;
    probe.warnings.push("Firmware mode is not UEFI.".to_string());

    let service = fixture_service();
    let error = service
        .build_plan(&probe, "C:\\images\\winpe_boot.wim", "D:", 1_700_000_000)
        .expect_err("unsupported host probe should fail");
    assert_eq!(error.exit_code(), 2);
    assert!(
        error.message().contains("Firmware mode is not UEFI."),
        "unsupported probe error should include probe warnings"
    );
}

#[test]
fn saves_and_loads_operation_journal() {
    let store = FileJournalStore::new("state");
    let journal = OperationJournal {
        operation_id: "op-42".to_string(),
        plan_id: "plan-42".to_string(),
        backup_root: ".partbooter/backups/plan-42".to_string(),
        status: OperationStatus::Applied,
        steps: vec![OperationStepRecord {
            step_id: 1,
            kind: PlanStepKind::BackupEsp,
            outcome: ActionOutcome::Completed,
            detail: "ESP backed up".to_string(),
        }],
        summary: "Operation completed".to_string(),
    };

    let saved = journal.to_record_file();
    let path = store.journal_path("op-42");
    assert!(path.ends_with("op-42.pbop"));
    let loaded = OperationJournal::from_record_file(&saved).expect("load should succeed");
    assert_eq!(loaded.operation_id, "op-42");
    assert_eq!(loaded.status, OperationStatus::Applied);
}

#[test]
fn plan_contents_are_exact() {
    let service = fixture_service();
    let mut probe = supported_probe_fixture();
    probe.bitlocker_detected = true;
    probe.warnings = vec!["first".to_string(), "second".to_string()];
    let plan = service
        .build_plan(&probe, "C:\\images\\ubuntu-24.04.iso", "D:", 42)
        .expect("plan should succeed");
    assert_eq!(plan.version, 1);
    assert_eq!(plan.plan_id, "plan-42");
    assert_eq!(plan.created_at, "42Z");
    assert_eq!(plan.target_volume, "D:");
    assert!(plan.backup_root.starts_with("state"));
    assert!(plan.backup_root.ends_with("plan-42"));
    let codes: Vec<&str> = plan.risk_flags.iter().map(|f| f.code.as_str()).collect();
    assert_eq!(
        codes,
        vec![
            "additive-only",
            "bitlocker-detected",
            "probe-warning-1",
            "probe-warning-2",
            "secure-boot-review"
        ]
    );
    assert_eq!(plan.risk_flags[0].level, RiskLevel::Info);
    assert_eq!(plan.risk_flags[3].message, "second");
    assert_eq!(
        plan.steps[2].description,
        "Stage payload artifacts from C:\\images\\ubuntu-24.04.iso into the managed PartBooter directory."
    );
    assert_eq!(
        plan.steps[3].description,
        "Generate Linux ISO loader configuration for the supported distro profile."
    );
    let ids: Vec<u8> = plan.steps.iter().map(|s| s.id).collect();
    assert_eq!(ids, vec![1, 2, 3, 4, 5, 6]);
    assert!(!plan.steps[5].requires_elevation);
    assert!(plan.steps[4].requires_elevation);
}

#[test]
fn winpe_plans_skip_the_secure_boot_flag() {
    let service = fixture_service();
    let plan = service
        .build_plan(&supported_probe_fixture(), "C:\\images\\winpe_boot.wim", "D:", 7)
        .expect("plan should succeed");
    assert_eq!(plan.risk_flags.len(), 1);
    assert_eq!(
        plan.steps[3].description,
        "Generate WinPE loader configuration for the staged WIM payload."
    );
}

#[test]
fn probe_checks_in_order() {
    let mut probe = supported_probe_fixture();
    probe.supported = false;
    let e = validate_probe(&probe).expect_err("unsupported");
    assert_eq!(e.kind(), AppErrorKind::UnsupportedEnvironment);
    assert_eq!(
        e.message(),
        "PartBooter probe reported an unsupported host configuration: no additional probe detail was recorded"
    );
    probe.warnings = vec!["a".to_string(), "b".to_string()];
    let e = validate_probe(&probe).expect_err("unsupported");
    assert_eq!(
        e.message(),
        "PartBooter probe reported an unsupported host configuration: a | b"
    );

    let mut probe = supported_probe_fixture();
    probe.firmware_mode = FirmwareMode::Bios;
    assert_eq!(
        validate_probe(&probe).expect_err("bios").message(),
        "PartBooter v1 only supports UEFI systems"
    );
    let mut probe = supported_probe_fixture();
    probe.partition_style = PartitionStyle::Mbr;
    assert_eq!(
        validate_probe(&probe).expect_err("mbr").message(),
        "PartBooter v1 only supports GPT disks"
    );
    let mut probe = supported_probe_fixture();
    probe.esp.volume = "   ".to_string();
    assert_eq!(
        validate_probe(&probe).expect_err("no esp").message(),
        "PartBooter could not resolve the EFI System Partition volume path"
    );
    assert!(validate_probe(&supported_probe_fixture()).is_ok());
}

#[test]
fn payload_check_reports_first_note() {
    let service = fixture_service();
    let payload = service.inspect_payload("C:\\images\\random.iso");
    let e = validate_payload(&payload).expect_err("unsupported");
    assert_eq!(e.kind(), AppErrorKind::Validation);
    assert_eq!(e.message(), "This ISO is not in the supported Linux profile list for v1.");
    let mut bare = payload.clone();
    bare.notes.clear();
    assert_eq!(validate_payload(&bare).expect_err("unsupported").message(), "unsupported payload");
}

#[test]
fn linux_apply_stops_at_the_checkpoint() {
    let service = fixture_service();
    let probe = supported_probe_fixture();
    let plan = service
        .build_plan(&probe, "C:\\images\\ubuntu-24.04.iso", "D:", 5)
        .expect("plan should succeed");
    let (run, result, trail) = apply_with_fixtures(&service, &plan, &probe, true);
    assert_eq!(trail, vec!["prepare", "checkpoint", "manifest", "save"]);
    let journal = result.expect("apply should succeed");
    assert_eq!(journal.status, OperationStatus::Checkpointed);
    assert_eq!(journal.operation_id, "op-1700000000");
    assert_eq!(journal.plan_id, "plan-5");
    assert_eq!(journal.steps[0].outcome, ActionOutcome::Completed);
    assert_eq!(journal.steps[1].outcome, ActionOutcome::Completed);
    assert_eq!(journal.steps[2].outcome, ActionOutcome::Skipped);
    assert_eq!(
        journal.steps[2].detail,
        "Execution beyond backup checkpointing is not implemented in this milestone."
    );
    assert_eq!(
        journal.summary,
        "Created a protected backup checkpoint for Ubuntu Live on target volume D:; payload staging and boot registration remain pending."
    );
    assert_eq!(run.phase, ApplyPhase::Finished);
    assert!(!run.entry_verified);

    let report = service.verify_operation(journal, true, true, None);
    assert!(report.verified);
    assert_eq!(report.warnings.len(), 1);
}

#[test]
fn unverified_entry_is_undone_before_the_error() {
    let service = fixture_service();
    let probe = supported_probe_fixture();
    let plan = service
        .build_plan(&probe, "C:\\images\\winpe_boot.wim", "D:", 5)
        .expect("plan should succeed");
    let (run, result, trail) = apply_with_fixtures(&service, &plan, &probe, false);
    assert_eq!(
        trail,
        vec![
            "prepare", "checkpoint", "manifest", "stage", "register", "loader", "metadata",
            "verify", "restore", "remove"
        ]
    );
    let error = result.expect_err("verification should fail");
    assert_eq!(error.kind(), AppErrorKind::Verification);
    assert_eq!(error.exit_code(), 6);
    assert_eq!(
        error.message(),
        "managed WinPE BCD entry {11111111-1111-1111-1111-111111111111} could not be verified after registration"
    );
    assert!(!run.entry_verified);
}

#[test]
fn failed_registration_is_undone_before_the_error() {
    let service = fixture_service();
    let probe = supported_probe_fixture();
    let plan = service
        .build_plan(&probe, "C:\\images\\winpe_boot.wim", "D:", 5)
        .expect("plan should succeed");
    let (mut run, mut action) = ApplyRun::start(service.journal_store(), plan, &probe, 9);
    let mut steps = 0;
    let result = loop {
        steps += 1;
        let event = match action {
            ApplyAction::CreateCheckpoint { .. } => ApplyEvent::CheckpointCreated(
                backup_checkpoint("b/esp".to_string(), "b/bcd-store.bak".to_string()),
            ),
            ApplyAction::StagePayload { .. } => ApplyEvent::PayloadStaged(WinPeStaging {
                stage_root: "s".to_string(),
                esp_stage_root: "e".to_string(),
                boot_wim_path: "s/boot.wim".to_string(),
                boot_sdi_path: "s/boot.sdi".to_string(),
                boot_sdi_relative_path: "\\s\\boot.sdi".to_string(),
                target_volume: "C:".to_string(),
            }),
            ApplyAction::RegisterEntry { .. } => ApplyEvent::Failed(
                partbooter::error::AppError::new(AppErrorKind::Io, "bcdedit refused".to_string()),
            ),
            ApplyAction::RestoreBootConfig { ref bcd_store_path } => {
                assert_eq!(bcd_store_path, "b/bcd-store.bak");
                ApplyEvent::Completed
            }
            ApplyAction::RemoveStagedPayload { ref stage_root, ref esp_stage_root } => {
                assert_eq!(stage_root, "s");
                assert_eq!(esp_stage_root, "e");
                ApplyEvent::Completed
            }
            ApplyAction::Finish(result) => break result,
            _ => ApplyEvent::Completed,
        };
        action = run.step(event);
    };
    assert_eq!(steps, 8);
    let error = result.expect_err("registration should fail");
    assert_eq!(error.message(), "bcdedit refused");
}

#[test]
fn refused_hosts_end_the_run_at_once() {
    let service = fixture_service();
    let mut probe = supported_probe_fixture();
    probe.partition_style = PartitionStyle::Unknown;
    let plan = service
        .build_plan(&supported_probe_fixture(), "C:\\images\\winpe_boot.wim", "D:", 5)
        .expect("plan should succeed");
    let (run, action) = ApplyRun::start(service.journal_store(), plan, &probe, 9);
    assert_eq!(run.phase, ApplyPhase::Finished);
    match action {
        ApplyAction::Finish(Err(e)) => {
            assert_eq!(e.message(), "PartBooter v1 only supports GPT disks")
        }
        _ => panic!("expected the run to end"),
    }
}

#[test]
fn repair_and_latest_operation() {
    let service = fixture_service();
    let ops = vec![
        RecordedOperation { operation_id: "op-1".to_string(), modified: 10 },
        RecordedOperation { operation_id: "op-2".to_string(), modified: 30 },
        RecordedOperation { operation_id: "op-3".to_string(), modified: 30 },
        RecordedOperation { operation_id: "op-0".to_string(), modified: -5 },
    ];
    assert_eq!(latest_operation_id(&ops).expect("latest"), "op-2");
    let e = latest_operation_id(&Vec::new()).expect_err("none");
    assert_eq!(e.message(), "no recorded operations exist in the journal store");
    assert_eq!(e.kind(), AppErrorKind::Validation);

    let mut journal = OperationJournal {
        operation_id: "op-2".to_string(),
        plan_id: "plan-2".to_string(),
        backup_root: "b".to_string(),
        status: OperationStatus::Applied,
        steps: vec![],
        summary: "s".to_string(),
    };
    service.repair_latest(&mut journal, "op-2");
    assert_eq!(journal.status, OperationStatus::RepairSuggested);
    assert_eq!(
        journal.summary,
        "Repair guidance recorded for op-2. Re-run verify or rollback on Windows to complete live remediation."
    );
    service.rollback_operation(&mut journal, "op-2");
    assert_eq!(journal.steps.len(), 1);
    assert_eq!(journal.steps[0].step_id, 255);
    assert_eq!(journal.summary, "Rolled back operation op-2 using recorded backup state.");
}

#[test]
fn identifiers_follow_the_clock() {
    assert_eq!(plan_id_for(1234), "plan-1234");
    assert_eq!(operation_id_for(1234), "op-1234");
    assert_eq!(timestamp_for(1234), "1234Z");
    assert_eq!(plan_id_for(0), "plan-0");
    assert_ne!(plan_id_for(10), plan_id_for(1));
}
