use partbooter::journal::{backup_manifest_text, is_record_extension, FileJournalStore};
use partbooter::model::{
    AdditiveBootPolicy, ExecutionPlan, PayloadKind, PayloadSpec, PlanStep, PlanStepKind,
};
use partbooter::service::{
    checkpoint_step_record, entry_display_name, metadata_file_names, winpe_loader_spec_text,
    winpe_step_record, WinPeOperationMetadata,
};
use partbooter::windows::{backup_checkpoint, BootEntryRegistration, WinPeStaging};

fn plan() -> ExecutionPlan {
    ExecutionPlan {
        version: 1,
        plan_id: "plan-9".to_string(),
        target_volume: "D:".to_string(),
        payload: PayloadSpec {
            source_path: "C:\\images\\winpe_boot.wim".to_string(),
            kind: PayloadKind::WinPe,
            display_name: "Windows PE".to_string(),
            profile: "winpe-wim".to_string(),
            supported: true,
            notes: vec![],
        },
        backup_root: "state/backups/plan-9".to_string(),
        additive_policy: AdditiveBootPolicy { replace_default_boot_path: false },
        risk_flags: vec![],
        steps: vec![],
        created_at: "9Z".to_string(),
    }
}

fn staging() -> WinPeStaging {
    WinPeStaging {
        stage_root: "C:\\Boot\\PartBooter".to_string(),
        esp_stage_root: "C:\\Boot\\PartBooter".to_string(),
        boot_wim_path: "C:\\Boot\\PartBooter\\boot.wim".to_string(),
        boot_sdi_path: "C:\\Boot\\PartBooter\\boot.sdi".to_string(),
        boot_sdi_relative_path: "\\Boot\\PartBooter\\boot.sdi".to_string(),
        target_volume: "C:".to_string(),
    }
}

#[test]
fn store_paths_sit_below_the_root() {
    let store = FileJournalStore::new("state");
    assert_eq!(store.root(), "state");
    let dir = store.operation_dir("op-1");
    assert!(dir.starts_with("state"));
    assert!(dir.contains("operations"));
    assert!(dir.ends_with("op-1"));
    assert!(store.operation_plan_path("op-1").ends_with("plan.pbplan"));
    let backups = store.backup_root_for_plan("plan-1");
    assert!(backups.contains("backups"));
    assert!(backups.ends_with("plan-1"));
    assert!(store.journal_path("op-1").ends_with("op-1.pbop"));
    assert!(is_record_extension(Some("pbop")));
    assert!(!is_record_extension(Some("txt")));
    assert!(!is_record_extension(None));
}

#[test]
fn manifest_text_is_exact() {
    let text = backup_manifest_text(
        &plan(),
        "B\\esp",
        "B\\bcd-store.bak",
        &["first note".to_string(), "second".to_string()],
    );
    assert_eq!(
        text,
        "PARTBOOTER_BACKUP_MANIFEST_V1\nplan_id=plan-9\npayload=C:\\images\\winpe_boot.wim\ntarget_volume=D:\nesp_backup_dir=B\\esp\nbcd_store_path=B\\bcd-store.bak\nnote=first note\nnote=second"
    );
}

#[test]
fn loader_spec_text_is_exact() {
    let registration = BootEntryRegistration {
        entry_id: "{e}".to_string(),
        ramdisk_options_id: "{ramdiskoptions}".to_string(),
        display_name: entry_display_name("Windows PE"),
    };
    assert_eq!(registration.display_name, "PartBooter Windows PE");
    let text = winpe_loader_spec_text(&staging(), &registration, "Windows PE");
    assert_eq!(
        text,
        "PARTBOOTER_WINPE_LOADER_V1\ndisplay_name=Windows PE\nentry_id={e}\ntarget_volume=C:\nboot_wim_path=C:\\Boot\\PartBooter\\boot.wim\nboot_sdi_path=C:\\Boot\\PartBooter\\boot.sdi\nboot_sdi_relative_path=\\Boot\\PartBooter\\boot.sdi\npath=\\Windows\\System32\\winload.efi\nsystemroot=\\Windows\nwinpe=yes\ndetecthal=yes\nnx=OptIn"
    );
}

#[test]
fn step_records_describe_the_work() {
    let checkpoint = backup_checkpoint("B\\esp".to_string(), "B\\bcd".to_string());
    let backup = PlanStep {
        id: 1,
        kind: PlanStepKind::BackupEsp,
        requires_elevation: true,
        description: String::new(),
    };
    let register = PlanStep {
        id: 5,
        kind: PlanStepKind::RegisterBootEntry,
        requires_elevation: true,
        description: String::new(),
    };
    let r = checkpoint_step_record(&backup, &checkpoint);
    assert_eq!(r.detail, "Backed up the EFI System Partition to B\\esp.");
    let registration = BootEntryRegistration {
        entry_id: "{e}".to_string(),
        ramdisk_options_id: "{r}".to_string(),
        display_name: "PartBooter Windows PE".to_string(),
    };
    let r = winpe_step_record(&register, &checkpoint, &staging(), &registration, "L");
    assert_eq!(r.step_id, 5);
    assert_eq!(r.detail, "Registered additive WinPE boot entry {e} (PartBooter Windows PE)");
    let skipped = checkpoint_step_record(&register, &checkpoint);
    assert_eq!(skipped.outcome, partbooter::model::ActionOutcome::Skipped);
}

#[test]
fn metadata_is_read_trimmed() {
    assert_eq!(metadata_file_names()[0], "entry-id.txt");
    assert_eq!(metadata_file_names()[6], "loader-spec.txt");
    let m = WinPeOperationMetadata::from_contents(" {e}\n", "s\n", "e", "w ", "d", "l\r\n");
    assert_eq!(m.entry_id, "{e}");
    assert_eq!(m.stage_root, "s");
    assert_eq!(m.boot_wim_path, "w");
    assert_eq!(m.loader_spec_path, "l");
}
