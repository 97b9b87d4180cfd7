use partbooter::error::AppErrorKind;
use partbooter::model::{EspInfo, FirmwareMode, PartitionStyle};
use partbooter::probe::parse_probe_output;
use partbooter::text::trim;
use partbooter::windows::{
    backup_checkpoint, bcdedit_failure_error, boot_sdi_candidates, esp_backup_robocopy_args,
    is_usable_mount_point, join_command_output, normalize_root_path, normalize_volume_root,
    normalized_volume_token, off_windows_error, parse_guid_from_bcd_output,
    ramdisk_device_candidates, removes_ramdisk_options, robocopy_failure_error,
    robocopy_succeeded, system_volume_token, temporary_drive_letters, windows_volume_relative_path,
    winpe_staging_layout, ProbeCommandOutcome, WindowsOperation, WindowsProbeAdapter,
};

#[test]
fn parses_supported_probe_output() {
    let parsed = parse_probe_output(
        "host_platform=windows\nfirmware_mode=uefi\npartition_style=gpt\nsecure_boot_enabled=true\nbitlocker_detected=false\nesp_volume=\\\\?\\Volume{ABC}\nesp_mount_point=S:\\\nesp_filesystem=FAT32\nesp_free_space_mb=512\nwarning=BitLocker cmdlet unavailable; encryption state may be incomplete.\nsupported=true\n",
    )
    .expect("probe output should parse");

    assert_eq!(parsed.firmware_mode, FirmwareMode::Uefi);
    assert_eq!(parsed.partition_style, PartitionStyle::Gpt);
    assert_eq!(parsed.esp.filesystem, "FAT32");
    assert!(parsed.supported);
    assert_eq!(parsed.warnings.len(), 1);
}

#[test]
fn parses_blocked_probe_output() {
    let parsed = parse_probe_output(
        "host_platform=windows\nfirmware_mode=bios\npartition_style=mbr\nsecure_boot_enabled=false\nbitlocker_detected=true\nesp_volume=\nesp_mount_point=\nesp_filesystem=\nesp_free_space_mb=0\nwarning=Firmware mode is not UEFI.\nwarning=System disk partition style is not GPT.\nsupported=false\n",
    )
    .expect("probe output should parse");

    assert_eq!(parsed.firmware_mode, FirmwareMode::Bios);
    assert_eq!(parsed.partition_style, PartitionStyle::Mbr);
    assert!(parsed.bitlocker_detected);
    assert!(!parsed.supported);
}

#[test]
fn live_probe_fails_on_non_windows_hosts() {
    let error = WindowsProbeAdapter::probe(ProbeCommandOutcome::NotWindows)
        .expect_err("non-Windows hosts should fail");
    assert_eq!(error.exit_code(), 2);
}

#[test]
fn robocopy_exit_code_rules_match_windows_convention() {
    assert!(robocopy_succeeded(0));
    assert!(robocopy_succeeded(7));
    assert!(!robocopy_succeeded(8));
}

#[test]
fn esp_backup_excludes_live_bcd_files() {
    let args = esp_backup_robocopy_args();
    assert!(args.contains(&"/XF"));
    assert!(args.contains(&"BCD"));
    assert!(args.contains(&"BCD.LOG"));
    assert!(args.contains(&"BCD.LOG*"));
}

#[test]
fn probe_output_errors_name_the_problem() {
    let error = parse_probe_output("not a key value line").expect_err("bad line");
    assert_eq!(error.kind(), AppErrorKind::Validation);
    assert_eq!(error.message(), "invalid probe output line: not a key value line");

    let error = parse_probe_output("host_platform=linux").expect_err("wrong platform");
    assert_eq!(error.message(), "unexpected host platform from probe output: linux");

    let error = parse_probe_output("host_platform=windows\nfirmware_mode=uefi").expect_err("missing");
    assert_eq!(error.message(), "missing probe output field: partition_style");

    let error = parse_probe_output("firmware_mode=arm").expect_err("bad firmware");
    assert_eq!(error.message(), "invalid firmware_mode value: arm");

    let error = parse_probe_output("supported=maybe").expect_err("bad bool");
    assert_eq!(error.message(), "invalid supported value: maybe");

    let error = parse_probe_output("esp_free_space_mb=lots").expect_err("bad number");
    assert_eq!(error.message(), "invalid esp_free_space_mb value: lots");
}

#[test]
fn probe_outcomes_map_to_errors_or_probes() {
    let failed = WindowsProbeAdapter::probe(ProbeCommandOutcome::Failed {
        stderr: "  access denied \n".to_string(),
        status: "exit code: 1".to_string(),
    })
    .expect_err("failed command");
    assert_eq!(failed.kind(), AppErrorKind::Io);
    assert_eq!(failed.message(), "Windows probe command failed: access denied");

    let silent = WindowsProbeAdapter::probe(ProbeCommandOutcome::Failed {
        stderr: "   ".to_string(),
        status: "exit code: 1".to_string(),
    })
    .expect_err("failed command");
    assert_eq!(
        silent.message(),
        "Windows probe command failed with exit status exit code: 1"
    );

    let off = WindowsProbeAdapter::probe(ProbeCommandOutcome::NotWindows).expect_err("off windows");
    assert_eq!(off.message(), "PartBooter live probing only runs on Windows hosts");
    assert_eq!(off.kind(), AppErrorKind::UnsupportedEnvironment);

    let probe = WindowsProbeAdapter::probe(ProbeCommandOutcome::Succeeded {
        stdout: "host_platform=windows\nfirmware_mode=UEFI\npartition_style=GPT\nsecure_boot_enabled=TRUE\nbitlocker_detected=false\nesp_volume=V\nesp_mount_point=S:\\\nesp_filesystem=FAT32\nesp_free_space_mb=100\nsupported=true".to_string(),
    })
    .expect("probe should parse");
    assert_eq!(probe.firmware_mode, FirmwareMode::Uefi);
    assert!(probe.secure_boot_enabled);
    assert_eq!(probe.esp.free_space_mb, 100);
}

#[test]
fn mount_points_and_roots() {
    assert!(is_usable_mount_point(" S:\\ "));
    assert!(!is_usable_mount_point("S:"));
    assert!(!is_usable_mount_point("\\\\?\\Volume{X}"));
    assert_eq!(normalize_root_path("S:"), "S:\\");
    assert_eq!(normalize_root_path("S:\\"), "S:\\");
    assert_eq!(normalize_root_path("S:/"), "S:/");
}

#[test]
fn volume_tokens() {
    assert_eq!(normalized_volume_token(" D:\\ ").expect("token"), "D:");
    assert_eq!(normalized_volume_token("D:/\\").expect("token"), "D:");
    let error = normalized_volume_token("Data").expect_err("not a drive");
    assert_eq!(error.kind(), AppErrorKind::Validation);
    assert_eq!(
        error.message(),
        "invalid target volume; expected a drive root like D:, got Data"
    );
    assert_eq!(normalize_volume_root("e:").expect("root"), "e:\\");
    assert_eq!(system_volume_token(None).expect("token"), "C:");
    assert_eq!(system_volume_token(Some("F:\\")).expect("token"), "F:");
}

#[test]
fn volume_relative_paths() {
    assert_eq!(
        windows_volume_relative_path("C:\\Boot\\PartBooter/boot.wim", "C:").expect("relative"),
        "\\Boot\\PartBooter\\boot.wim"
    );
    let error = windows_volume_relative_path("D:\\x", "C:").expect_err("other volume");
    assert_eq!(
        error.message(),
        "path D:\\x is not rooted under the expected target volume C:"
    );
}

#[test]
fn bcd_guid_parsing() {
    assert_eq!(
        parse_guid_from_bcd_output("The entry {abc-123} was successfully created.").expect("guid"),
        "{abc-123}"
    );
    let error = parse_guid_from_bcd_output("no guid here").expect_err("no guid");
    assert_eq!(error.message(), "could not find a GUID in bcdedit output");
    let error = parse_guid_from_bcd_output("open { only").expect_err("no end");
    assert_eq!(error.message(), "could not find the end of the GUID in bcdedit output");
}

#[test]
fn command_output_joining() {
    assert_eq!(join_command_output("  ", "\n"), "");
    assert_eq!(join_command_output(" out ", ""), "out");
    assert_eq!(join_command_output("", " err "), "err");
    assert_eq!(join_command_output("out", "err"), "out | err");
}

#[test]
fn ramdisk_rules() {
    assert!(!removes_ramdisk_options("{RamdiskOptions}"));
    assert!(removes_ramdisk_options("{1234}"));
    assert_eq!(
        ramdisk_device_candidates("C:", "\\Boot\\boot.wim", "{ramdiskoptions}"),
        vec![
            "ramdisk=[C:]\\Boot\\boot.wim,{ramdiskoptions}".to_string(),
            "ramdisk=[boot]\\Boot\\boot.wim,{ramdiskoptions}".to_string(),
        ]
    );
}

#[test]
fn host_error_messages() {
    let e = off_windows_error(WindowsOperation::BootConfigRestore);
    assert_eq!(e.kind(), AppErrorKind::UnsupportedEnvironment);
    assert_eq!(e.message(), "PartBooter BCD restore only runs on Windows hosts");
    assert_eq!(
        robocopy_failure_error(16).message(),
        "robocopy failed while backing up the ESP with exit code 16"
    );
    assert_eq!(
        robocopy_failure_error(-3).message(),
        "robocopy failed while backing up the ESP with exit code -3"
    );
    assert_eq!(
        bcdedit_failure_error("delete BCD object {x}", "exit code: 1", "").message(),
        "bcdedit failed to delete BCD object {x} with exit status exit code: 1"
    );
    assert_eq!(
        bcdedit_failure_error("set a", "exit code: 2", "denied").message(),
        "bcdedit failed to set a with exit status exit code: 2: denied"
    );
}

#[test]
fn checkpoint_and_staging_layout() {
    let c = backup_checkpoint("B\\esp".to_string(), "B\\bcd-store.bak".to_string());
    assert_eq!(c.esp_backup_dir, "B\\esp");
    assert_eq!(c.notes.len(), 2);
    assert_eq!(c.notes[1], "BCD snapshot exported with bcdedit.");
    assert_eq!(temporary_drive_letters(), ['Z', 'Y', 'X', 'W', 'V', 'U', 'T']);
    assert_eq!(boot_sdi_candidates("C:\\Windows")[3], "C:\\Windows\\System32\\Recovery\\boot.sdi");
    let mut esp = EspInfo {
        volume: "\\\\?\\Volume{ESP}".to_string(),
        mount_point: "S:\\".to_string(),
        filesystem: "FAT32".to_string(),
        free_space_mb: 100,
    };
    let (staging, mount) = winpe_staging_layout(&esp, &vec![false; 7]).expect("layout");
    assert_eq!(mount, None);
    assert_eq!(staging.target_volume, "S:");
    assert_eq!(staging.boot_sdi_relative_path, "\\EFI\\PartBooter\\boot.sdi");
    assert_eq!(staging.stage_root, staging.esp_stage_root);
    assert!(staging.stage_root.starts_with("S:\\"));
    assert!(staging.stage_root.contains("EFI"));
    assert!(staging.stage_root.ends_with("PartBooter"));
    assert!(staging.boot_wim_path.ends_with("boot.wim"));
    assert!(staging.boot_sdi_path.starts_with(&staging.stage_root));
    esp.mount_point = "\\\\?\\Volume{ESP}\\".to_string();
    let in_use = vec![true, true, false, false, true, true, true];
    let (staging, mount) = winpe_staging_layout(&esp, &in_use).expect("mounted layout");
    assert_eq!(mount, Some('X'));
    assert_eq!(staging.target_volume, "X:");
    assert!(staging.stage_root.starts_with("X:\\"));
    assert!(staging.stage_root.ends_with("PartBooter"));
    let error = winpe_staging_layout(&esp, &vec![true; 7]).expect_err("no free letter");
    assert_eq!(error.kind(), AppErrorKind::Io);
    assert_eq!(error.message(), "unable to find a temporary drive letter for mounting the ESP");
    assert!(winpe_staging_layout(&esp, &vec![true, true]).is_err());
}

#[test]
fn whitespace_follows_the_unicode_set() {
    assert_eq!(trim("\u{3000}a b\u{85}\t"), "a b");
    assert_eq!(trim("\u{200B}x"), "\u{200B}x");
    assert_eq!(trim(" \u{A0}\u{2028}"), "");
}
