use partbooter::error::{AppError, AppErrorKind};
use partbooter::json;
use partbooter::model::{
    ActionOutcome, AdditiveBootPolicy, EspInfo, ExecutionPlan, FirmwareMode, HostPlatform,
    MachineProbe, OperationJournal, OperationStatus, OperationStepRecord, PartitionStyle,
    PayloadKind, PayloadSpec, PlanStep, PlanStepKind, RiskFlag, RiskLevel, VerificationReport,
};

fn sample_plan() -> ExecutionPlan {
    ExecutionPlan {
        version: 1,
        plan_id: "plan-123".to_string(),
        target_volume: "D:".to_string(),
        payload: PayloadSpec {
            source_path: "C:\\images\\ubuntu.iso".to_string(),
            kind: PayloadKind::LinuxIso,
            display_name: "Ubuntu Live".to_string(),
            profile: "ubuntu-live".to_string(),
            supported: true,
            notes: vec!["Supports loopback staging".to_string()],
        },
        backup_root: ".partbooter/backups/plan-123".to_string(),
        additive_policy: AdditiveBootPolicy {
            replace_default_boot_path: false,
        },
        risk_flags: vec![RiskFlag {
            code: "secure-boot-review".to_string(),
            level: RiskLevel::Warning,
            message: "Secure Boot review remains required.".to_string(),
        }],
        steps: vec![PlanStep {
            id: 1,
            kind: PlanStepKind::BackupEsp,
            requires_elevation: true,
            description: "Backup the current ESP.".to_string(),
        }],
        created_at: "2026-03-10T00:00:00Z".to_string(),
    }
}

#[test]
fn plan_round_trip_keeps_payload_and_steps() {
    let plan = sample_plan();
    let encoded = plan.to_plan_file();
    let decoded = ExecutionPlan::from_plan_file(&encoded).expect("plan should decode");
    assert_eq!(decoded.plan_id, "plan-123");
    assert_eq!(decoded.payload.kind, PayloadKind::LinuxIso);
    assert_eq!(decoded.steps.len(), 1);
    assert_eq!(decoded.risk_flags.len(), 1);
}

#[test]
fn operation_round_trip_keeps_status() {
    let operation = OperationJournal {
        operation_id: "op-1".to_string(),
        plan_id: "plan-1".to_string(),
        backup_root: ".partbooter/backups/op-1".to_string(),
        status: OperationStatus::Applied,
        steps: vec![OperationStepRecord {
            step_id: 1,
            kind: PlanStepKind::StagePayload,
            outcome: ActionOutcome::Completed,
            detail: "Payload staged.".to_string(),
        }],
        summary: "Applied successfully".to_string(),
    };

    let encoded = operation.to_record_file();
    let decoded = OperationJournal::from_record_file(&encoded).expect("operation should decode");
    assert_eq!(decoded.operation_id, "op-1");
    assert_eq!(decoded.status, OperationStatus::Applied);
    assert_eq!(decoded.steps.len(), 1);
}

#[test]
fn plan_round_trip_keeps_every_field() {
    let plan = sample_plan();
    let decoded = ExecutionPlan::from_plan_file(&plan.to_plan_file()).expect("plan should decode");
    assert_eq!(decoded, plan);
}

#[test]
fn plan_file_has_exact_layout() {
    let plan = sample_plan();
    let text = plan.to_plan_file();
    let expected = "PARTBOOTER_PLAN_V1\n\
version\t1\n\
plan_id\tplan-123\n\
target_volume\tD:\n\
backup_root\t.partbooter/backups/plan-123\n\
created_at\t2026-03-10T00:00:00Z\n\
replace_default_boot_path\tfalse\n\
payload\tlinux-iso\tC:\\images\\ubuntu.iso\tUbuntu Live\tubuntu-live\ttrue\n\
payload_note\tSupports loopback staging\n\
risk\twarning\tsecure-boot-review\tSecure Boot review remains required.\n\
step\t1\tbackup-esp\ttrue\tBackup the current ESP.";
    assert_eq!(text, expected);
}

#[test]
fn plan_file_escapes_reserved_characters() {
    let mut plan = sample_plan();
    plan.payload.display_name = "Tab\there|pipe%\nline".to_string();
    let text = plan.to_plan_file();
    assert!(text.contains("Tab%09here%7Cpipe%25%0Aline"));
    let decoded = ExecutionPlan::from_plan_file(&text).expect("plan should decode");
    assert_eq!(decoded.payload.display_name, "Tab\there|pipe%\nline");
}

#[test]
fn plan_file_ignores_lines_with_unknown_keys() {
    let plan = sample_plan();
    let text = plan.to_plan_file();
    let after_header = text.replacen("\n", "\nnote\tfrom an operator\n", 1);
    let in_the_middle = text.replacen("\ncreated_at", "\nextra\r\ncreated_at", 1);
    let appended = format!("{}\ntrailer\tx\ty", text);
    let bare_key = text.replacen("\nrisk", "\nversions\n\nrisk", 1);
    for variant in [after_header, in_the_middle, appended, bare_key] {
        assert_ne!(variant, text);
        let decoded = ExecutionPlan::from_plan_file(&variant).expect("plan should decode");
        assert_eq!(decoded, plan);
    }
}

#[test]
fn plan_file_rejects_bad_header() {
    let error = ExecutionPlan::from_plan_file("NOT_A_PLAN\nversion\t1").expect_err("bad header");
    assert_eq!(error.kind(), AppErrorKind::Validation);
    assert_eq!(error.message(), "invalid PartBooter plan file header");
    assert_eq!(error.exit_code(), 3);
}

#[test]
fn plan_file_rejects_missing_fields() {
    let error = ExecutionPlan::from_plan_file("PARTBOOTER_PLAN_V1\nversion\t1").expect_err("missing");
    assert_eq!(error.kind(), AppErrorKind::Validation);
}

#[test]
fn operation_round_trip_keeps_every_field() {
    let operation = OperationJournal {
        operation_id: "op-7".to_string(),
        plan_id: "plan-7".to_string(),
        backup_root: "C:\\state\\backups\\plan-7".to_string(),
        status: OperationStatus::RepairSuggested,
        steps: vec![
            OperationStepRecord {
                step_id: 1,
                kind: PlanStepKind::BackupEsp,
                outcome: ActionOutcome::Completed,
                detail: "Backed up | with pipe".to_string(),
            },
            OperationStepRecord {
                step_id: 255,
                kind: PlanStepKind::VerifyBootEntry,
                outcome: ActionOutcome::Skipped,
                detail: "100% done".to_string(),
            },
        ],
        summary: "Repair guidance recorded.".to_string(),
    };
    let decoded = OperationJournal::from_record_file(&operation.to_record_file())
        .expect("operation should decode");
    assert_eq!(decoded, operation);
}

#[test]
fn record_file_rejects_bad_header() {
    let error = OperationJournal::from_record_file("garbage").expect_err("bad header");
    assert_eq!(error.kind(), AppErrorKind::Validation);
}

#[test]
fn names_round_trip() {
    for kind in [PayloadKind::LinuxIso, PayloadKind::WinPe, PayloadKind::Unsupported] {
        assert_eq!(PayloadKind::from_str(kind.as_str()), Some(kind));
    }
    for level in [RiskLevel::Info, RiskLevel::Warning, RiskLevel::Blocker] {
        assert_eq!(RiskLevel::from_str(level.as_str()), Some(level));
    }
    for kind in [
        PlanStepKind::BackupEsp,
        PlanStepKind::SnapshotBootConfig,
        PlanStepKind::StagePayload,
        PlanStepKind::WriteLoaderConfig,
        PlanStepKind::RegisterBootEntry,
        PlanStepKind::VerifyBootEntry,
    ] {
        assert_eq!(PlanStepKind::from_str(kind.as_str()), Some(kind));
    }
    for outcome in [
        ActionOutcome::Pending,
        ActionOutcome::Completed,
        ActionOutcome::Failed,
        ActionOutcome::Skipped,
    ] {
        assert_eq!(ActionOutcome::from_str(outcome.as_str()), Some(outcome));
    }
    for status in [
        OperationStatus::Planned,
        OperationStatus::Checkpointed,
        OperationStatus::Applied,
        OperationStatus::Verified,
        OperationStatus::RolledBack,
        OperationStatus::RepairSuggested,
        OperationStatus::Failed,
    ] {
        assert_eq!(OperationStatus::from_str(status.as_str()), Some(status));
    }
    assert_eq!(PayloadKind::from_str("iso"), None);
    assert_eq!(HostPlatform::Windows.as_str(), "windows");
    assert_eq!(FirmwareMode::Uefi.as_str(), "uefi");
    assert_eq!(PartitionStyle::Unknown.as_str(), "unknown");
    assert_eq!(OperationStatus::RolledBack.as_str(), "rolled-back");
    assert_eq!(PlanStepKind::SnapshotBootConfig.as_str(), "snapshot-boot-config");
}

#[test]
fn error_exit_codes_follow_kinds() {
    let cases = [
        (AppErrorKind::UnsupportedEnvironment, 2),
        (AppErrorKind::Validation, 3),
        (AppErrorKind::Privilege, 4),
        (AppErrorKind::Io, 5),
        (AppErrorKind::Verification, 6),
        (AppErrorKind::Rollback, 7),
        (AppErrorKind::Usage, 64),
    ];
    for (kind, code) in cases {
        let error = AppError::new(kind, "message".to_string());
        assert_eq!(error.exit_code(), code);
        assert_eq!(error.kind(), kind);
        assert_eq!(error.message(), "message");
    }
}

#[test]
fn json_helpers_render_exactly() {
    assert_eq!(json::escape("a\"b\\c\nd\re\tf"), "a\\\"b\\\\c\\nd\\re\\tf");
    assert_eq!(json::string("x"), "\"x\"");
    assert_eq!(json::bool_value(true), "true");
    assert_eq!(json::bool_value(false), "false");
    assert_eq!(json::array(&["1".to_string(), "2".to_string()]), "[1,2]");
    assert_eq!(json::array(&[]), "[]");
    assert_eq!(
        json::object(&[("a", "1".to_string()), ("b", "\"x\"".to_string())]),
        "{\"a\":1,\"b\":\"x\"}"
    );
}

#[test]
fn field_encoding_round_trips() {
    let raw = "a%b|c\td\ne\rf";
    let encoded = json::encode_field(raw);
    assert_eq!(encoded, "a%25b%7Cc%09d%0Ae%0Df");
    assert_eq!(json::decode_field(&encoded), Some(raw.to_string()));
    assert_eq!(json::decode_field("%4"), None);
    assert_eq!(json::decode_field("%zz"), None);
    assert_eq!(json::decode_field("%41"), Some("A".to_string()));
}

#[test]
fn probe_json_is_exact() {
    let probe = MachineProbe {
        host_platform: HostPlatform::Windows,
        firmware_mode: FirmwareMode::Uefi,
        partition_style: PartitionStyle::Gpt,
        secure_boot_enabled: true,
        bitlocker_detected: false,
        esp: EspInfo {
            volume: "V".to_string(),
            mount_point: "S:\\".to_string(),
            filesystem: "FAT32".to_string(),
            free_space_mb: 512,
        },
        warnings: vec!["w".to_string()],
        supported: true,
    };
    assert_eq!(
        probe.to_json(),
        "{\"hostPlatform\":\"windows\",\"firmwareMode\":\"uefi\",\"partitionStyle\":\"gpt\",\"secureBootEnabled\":true,\"bitlockerDetected\":false,\"esp\":{\"volume\":\"V\",\"mountPoint\":\"S:\\\\\",\"filesystem\":\"FAT32\",\"freeSpaceMb\":512},\"warnings\":[\"w\"],\"supported\":true}"
    );
}

#[test]
fn report_json_is_exact() {
    let report = VerificationReport {
        operation_id: "op-1".to_string(),
        backup_artifacts_present: true,
        operation_plan_present: true,
        boot_entry_registered: false,
        staged_artifacts_present: true,
        warnings: vec![],
        verified: false,
    };
    assert_eq!(
        report.to_json(),
        "{\"operationId\":\"op-1\",\"bootEntryRegistered\":false,\"stagedArtifactsPresent\":true,\"warnings\":[],\"verified\":false}"
    );
}
