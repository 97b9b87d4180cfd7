use partbooter::checkpoint::{CheckpointAction, CheckpointEvent, CheckpointPhase, CheckpointRun};
use partbooter::error::{AppError, AppErrorKind};
use partbooter::model::EspInfo;
use partbooter::registration::{RegistrationAction, RegistrationEvent, RegistrationRun};
use partbooter::windows::{BootEntryRegistration, CommandOutcome, WinPeStaging};

fn esp(mount_point: &str) -> EspInfo {
    EspInfo {
        volume: "\\\\?\\Volume{ESP}".to_string(),
        mount_point: mount_point.to_string(),
        filesystem: "FAT32".to_string(),
        free_space_mb: 100,
    }
}

fn ran(success: bool, code: Option<i32>, stdout: &str) -> CommandOutcome {
    CommandOutcome {
        success,
        code,
        status: if success { "exit code: 0".to_string() } else { "exit code: 1".to_string() },
        stdout: stdout.to_string(),
        stderr: String::new(),
    }
}

/// Drives a checkpoint run; `answer` gives the outcome of each command.
fn checkpoint_with(
    mount_point: &str,
    in_use: Vec<bool>,
    mut answer: impl FnMut(&str, &[String]) -> CommandOutcome,
) -> (Result<partbooter::windows::BackupCheckpoint, AppError>, Vec<String>) {
    let (mut run, mut action) = CheckpointRun::start(&esp(mount_point), "B");
    let mut commands = Vec::new();
    loop {
        let event = match action {
            CheckpointAction::Finish(result) => return (result, commands),
            CheckpointAction::CreateDirectories { paths } => {
                assert_eq!(paths[0], "B");
                CheckpointEvent::Completed
            }
            CheckpointAction::CheckPathsExist { paths } => {
                assert_eq!(paths[0], "Z:\\");
                assert_eq!(paths[6], "T:\\");
                CheckpointEvent::PathsExist(in_use.clone())
            }
            CheckpointAction::Run { program, args } => {
                commands.push(format!("{} {}", program, args.join(" ")));
                CheckpointEvent::Ran(answer(&program, &args))
            }
        };
        assert!(run.accepts(&event));
        action = run.step(event);
    }
}

#[test]
fn checkpoint_copies_from_a_usable_mount_point() {
    let (result, commands) = checkpoint_with("S:\\", vec![], |_, _| ran(true, Some(1), ""));
    let checkpoint = result.expect("checkpoint");
    assert_eq!(checkpoint.notes.len(), 2);
    assert!(checkpoint.esp_backup_dir.ends_with("esp"));
    assert!(checkpoint.bcd_store_path.ends_with("bcd-store.bak"));
    assert_eq!(commands.len(), 2);
    assert!(commands[0].starts_with("robocopy S:\\ B"));
    assert!(commands[0].ends_with("/XF BCD BCD.LOG BCD.LOG1 BCD.LOG2 BCD.LOG* BCD.TMP"));
    assert!(commands[1].starts_with("bcdedit /export B"));
}

#[test]
fn checkpoint_mounts_and_unmounts_a_free_letter() {
    let in_use = vec![true, true, false, false, false, false, false];
    let (result, commands) = checkpoint_with("", in_use, |_, _| ran(true, Some(3), ""));
    assert!(result.is_ok());
    assert_eq!(commands[0], "mountvol X: /s");
    assert!(commands[1].starts_with("robocopy X:\\ B"));
    assert_eq!(commands[2], "mountvol X: /d");
    assert!(commands[3].starts_with("bcdedit /export"));
}

#[test]
fn checkpoint_unmounts_even_when_the_copy_fails() {
    let in_use = vec![false; 7];
    let (result, commands) = checkpoint_with("", in_use, |program, _| {
        if program == "robocopy" {
            ran(false, Some(8), "")
        } else {
            ran(true, Some(0), "")
        }
    });
    let error = result.expect_err("copy failed");
    assert_eq!(error.kind(), AppErrorKind::Io);
    assert_eq!(error.message(), "robocopy failed while backing up the ESP with exit code 8");
    assert_eq!(commands.len(), 3);
    assert_eq!(commands[2], "mountvol Z: /d");
}

#[test]
fn checkpoint_without_free_letters_or_export_fails() {
    let (result, commands) = checkpoint_with("", vec![true; 7], |_, _| ran(true, Some(0), ""));
    assert_eq!(
        result.expect_err("no letter").message(),
        "unable to find a temporary drive letter for mounting the ESP"
    );
    assert!(commands.is_empty());

    let (result, _) = checkpoint_with("S:\\", vec![], |program, _| {
        if program == "bcdedit" {
            ran(false, Some(1), "")
        } else {
            ran(true, None, "")
        }
    });
    assert_eq!(
        result.expect_err("robocopy without a code counts as 16").message(),
        "robocopy failed while backing up the ESP with exit code 16"
    );

    let (result, _) = checkpoint_with("S:\\", vec![], |program, _| {
        if program == "bcdedit" {
            ran(false, Some(1), "")
        } else {
            ran(true, Some(0), "")
        }
    });
    assert_eq!(
        result.expect_err("export failed").message(),
        "bcdedit /export failed with exit status exit code: 1"
    );
}

#[test]
fn checkpoint_failure_to_create_directories_ends_the_run() {
    let (mut run, _) = CheckpointRun::start(&esp("S:"), "B");
    let action = run.step(CheckpointEvent::Failed(AppError::new(AppErrorKind::Io, "denied".to_string())));
    assert_eq!(run.phase, CheckpointPhase::Finished);
    match action {
        CheckpointAction::Finish(Err(e)) => assert_eq!(e.message(), "denied"),
        _ => panic!("expected the run to end"),
    }
}

fn staging() -> WinPeStaging {
    WinPeStaging {
        stage_root: "C:\\Boot\\PartBooter".to_string(),
        esp_stage_root: "C:\\Boot\\PartBooter".to_string(),
        boot_wim_path: "C:\\Boot\\PartBooter\\boot.wim".to_string(),
        boot_sdi_path: "C:\\Boot\\PartBooter\\boot.sdi".to_string(),
        boot_sdi_relative_path: "\\Boot\\PartBooter\\boot.sdi".to_string(),
        target_volume: "C:".to_string(),
    }
}

/// Drives a registration run; `answer` gives the outcome of each bcdedit.
fn register_with(
    staging: WinPeStaging,
    mut answer: impl FnMut(&[String]) -> CommandOutcome,
) -> (Result<BootEntryRegistration, AppError>, Vec<String>) {
    let (mut run, mut action) = RegistrationRun::start(staging, "PartBooter Windows PE");
    let mut commands = Vec::new();
    loop {
        let event = match action {
            RegistrationAction::Finish(result) => return (result, commands),
            RegistrationAction::RunBcdedit { args } => {
                commands.push(args.join(" "));
                RegistrationEvent::Ran(answer(&args))
            }
        };
        assert!(run.accepts());
        action = run.step(event);
    }
}

fn created(args: &[String]) -> CommandOutcome {
    if args[0] == "/create" && args[1] == "/d" {
        ran(true, Some(0), "The entry {guid-1} was successfully created.")
    } else {
        ran(true, Some(0), "")
    }
}

#[test]
fn registration_runs_the_full_sequence() {
    let (result, commands) = register_with(staging(), created);
    let registration = result.expect("registered");
    assert_eq!(registration.entry_id, "{guid-1}");
    assert_eq!(registration.ramdisk_options_id, "{ramdiskoptions}");
    assert_eq!(registration.display_name, "PartBooter Windows PE");
    assert_eq!(
        commands,
        vec![
            "/create /d PartBooter Windows PE /application osloader",
            "/enum {ramdiskoptions}",
            "/set {ramdiskoptions} ramdisksdidevice partition=C:",
            "/set {ramdiskoptions} ramdisksdipath \\Boot\\PartBooter\\boot.sdi",
            "/set {guid-1} device ramdisk=[C:]\\Boot\\PartBooter\\boot.wim,{ramdiskoptions}",
            "/set {guid-1} osdevice ramdisk=[C:]\\Boot\\PartBooter\\boot.wim,{ramdiskoptions}",
            "/set {guid-1} path \\Windows\\System32\\winload.efi",
            "/set {guid-1} systemroot \\Windows",
            "/set {guid-1} winpe yes",
            "/set {guid-1} detecthal yes",
            "/set {guid-1} nx OptIn",
            "/displayorder {guid-1} /addlast",
        ]
    );
}

#[test]
fn registration_falls_back_to_the_boot_device_and_creates_options() {
    let (result, commands) = register_with(staging(), |args| {
        if args[0] == "/enum" {
            ran(false, Some(1), "")
        } else if args.len() == 4 && args[2] == "device" && args[3].starts_with("ramdisk=[C:]") {
            ran(false, Some(1), "")
        } else {
            created(args)
        }
    });
    assert!(result.is_ok());
    assert_eq!(commands[2], "/create {ramdiskoptions} /d PartBooter ramdisk options");
    assert_eq!(
        commands[6],
        "/set {guid-1} device ramdisk=[boot]\\Boot\\PartBooter\\boot.wim,{ramdiskoptions}"
    );
    assert_eq!(
        commands[7],
        "/set {guid-1} osdevice ramdisk=[boot]\\Boot\\PartBooter\\boot.wim,{ramdiskoptions}"
    );
}

#[test]
fn registration_deletes_the_entry_when_configuration_fails() {
    let (result, commands) = register_with(staging(), |args| {
        if args.len() == 4 && args[2] == "device" {
            CommandOutcome {
                success: false,
                code: Some(1),
                status: "exit code: 1".to_string(),
                stdout: String::new(),
                stderr: "denied".to_string(),
            }
        } else {
            created(args)
        }
    });
    let error = result.expect_err("no device accepted");
    assert_eq!(error.kind(), AppErrorKind::Io);
    assert_eq!(
        error.message(),
        "failed to set device to ramdisk=[boot]\\Boot\\PartBooter\\boot.wim,{ramdiskoptions}: bcdedit failed to set device on {guid-1} with exit status exit code: 1: denied"
    );
    assert_eq!(commands.last().expect("commands"), "/delete {guid-1}");
}

#[test]
fn registration_rejects_a_wim_off_the_volume() {
    let mut elsewhere = staging();
    elsewhere.boot_wim_path = "D:\\boot.wim".to_string();
    let (result, commands) = register_with(elsewhere, created);
    let error = result.expect_err("wim off the volume");
    assert_eq!(error.kind(), AppErrorKind::Validation);
    assert_eq!(
        error.message(),
        "path D:\\boot.wim is not rooted under the expected target volume C:"
    );
    assert_eq!(commands.last().expect("commands"), "/delete {guid-1}");
}

#[test]
fn registration_stops_when_the_entry_cannot_be_created() {
    let (result, commands) = register_with(staging(), |_| ran(false, Some(1), ""));
    assert_eq!(
        result.expect_err("create failed").message(),
        "bcdedit /create for PartBooter Windows PE failed with exit status exit code: 1"
    );
    assert_eq!(commands.len(), 1);
    let (result, _) = register_with(staging(), |_| ran(true, Some(0), "no identifier"));
    assert_eq!(
        result.expect_err("no guid").message(),
        "could not find a GUID in bcdedit output"
    );
}
