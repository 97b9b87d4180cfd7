//! Taking the backup checkpoint on a Windows host: the decisions between
//! the host's commands.
//!
//! The ESP is copied with robocopy from its mount point, or, when it has
//! no usable one, from a free drive letter it is mounted on for the copy
//! and unmounted from afterwards; then the boot configuration is exported
//! with bcdedit. The run hands out one host action at a time and takes
//! back how it went.

use vstd::prelude::*;
use crate::error::{AppError, AppErrorKind};
use crate::journal::{join_path, joined, lemma_word_plain, ordinary_path};
use crate::json::views;
use crate::model::EspInfo;
use crate::text::push_str;
use crate::windows::{
    backup_checkpoint, checkpoint_notes_spec, drive_root, esp_backup_args_spec,
    esp_backup_robocopy_args, is_usable_mount_point, normalize_root_path, robocopy_failure_error,
    robocopy_succeeded, root_path_spec, signed_decimal_spec, temporary_drive_letters,
    usable_mount_point_spec, BackupCheckpoint, CommandOutcome,
};

verus! {

broadcast use vstd::seq_lib::group_seq_properties;

/// The drive letters tried, in order, for mounting the ESP.
pub open spec fn drive_letters_spec() -> Seq<char> {
    seq!['Z', 'Y', 'X', 'W', 'V', 'U', 'T']
}

/// The root directories of the drive letters tried.
pub open spec fn drive_roots_spec() -> Seq<Seq<char>> {
    drive_letters_spec().map_values(|l: char| seq![l, ':', '\\'])
}

/// The robocopy arguments copying `source` into `destination`.
pub open spec fn copy_args_spec(source: Seq<char>, destination: Seq<char>) -> Seq<Seq<char>> {
    seq![source, destination] + esp_backup_args_spec()
}

/// Where a checkpoint run stands.
#[derive(Debug, Clone, Copy, PartialEq, Eq, Structural)]
pub enum CheckpointPhase {
    CreatingDirectories,
    CheckingDrives,
    Mounting,
    Copying,
    Unmounting,
    Exporting,
    Finished,
}

/// A host action of a checkpoint run.
pub enum CheckpointAction {
    /// Create each directory with its parents, in order.
    CreateDirectories { paths: Vec<String> },
    /// Report, for each path, whether it exists.
    CheckPathsExist { paths: Vec<String> },
    /// Run a program and report how it ended.
    Run { program: String, args: Vec<String> },
    /// The run is over with this outcome.
    Finish(Result<BackupCheckpoint, AppError>),
}

/// How the last action of a checkpoint run went.
pub enum CheckpointEvent {
    Completed,
    Failed(AppError),
    PathsExist(Vec<bool>),
    Ran(CommandOutcome),
}

/// A run taking the backup checkpoint.
pub struct CheckpointRun {
    pub phase: CheckpointPhase,
    pub mount_point: String,
    pub esp_backup_dir: String,
    pub bcd_store_path: String,
    /// The drive letter the ESP was mounted on for the copy.
    pub mounted: Option<char>,
    /// The exit code robocopy ended with.
    pub robocopy_code: i32,
}

/// Whether a run in `phase` takes `event`.
pub open spec fn checkpoint_accepts(phase: CheckpointPhase, event: CheckpointEvent) -> bool {
    match phase {
        CheckpointPhase::CreatingDirectories => event is Completed || event is Failed,
        CheckpointPhase::CheckingDrives => event matches CheckpointEvent::PathsExist(v) && v@.len()
            == 7,
        CheckpointPhase::Mounting | CheckpointPhase::Copying | CheckpointPhase::Unmounting
        | CheckpointPhase::Exporting => event is Ran || event is Failed,
        CheckpointPhase::Finished => false,
    }
}

/// The first position of a `false` in `v`.
pub open spec fn first_free(v: Seq<bool>, k: int) -> bool {
    0 <= k < v.len() && !v[k] && forall|j: int| 0 <= j < k ==> v[j]
}

/// The message of a failed ESP export.
pub open spec fn export_failure_message(status: Seq<char>) -> Seq<char> {
    "bcdedit /export failed with exit status "@ + status
}

/// The message of a failed mount.
pub open spec fn mount_failure_message(letter: char, status: Seq<char>) -> Seq<char> {
    "mountvol "@ + seq![letter, ':'] + " /s failed with exit status "@ + status
}

/// The message when every drive letter is taken.
pub open spec fn no_drive_letter_message() -> Seq<char> {
    "unable to find a temporary drive letter for mounting the ESP"@
}

fn strings_of(items: &[&str]) -> (r: Vec<String>)
    ensures
        views(r@) == items@.map_values(|s: &str| s@),
{
    let mut r: Vec<String> = Vec::new();
    let mut i: usize = 0;
    while i < items.len()
        invariant
            i <= items@.len(),
            views(r@) =~= items@.take(i as int).map_values(|s: &str| s@),
        decreases items@.len() - i,
    {
        let ghost before = r@;
        r.push(items[i].to_owned());
        proof {
            assert(views(r@) =~= views(before).push(items@[i as int]@));
            assert(items@.take(i + 1).map_values(|s: &str| s@) =~= items@.take(i as int).map_values(
                |s: &str| s@,
            ).push(items@[i as int]@));
        }
        i += 1;
    }
    assert(items@.take(items@.len() as int) =~= items@);
    r
}

fn copy_args(source: String, destination: &str) -> (r: Vec<String>)
    ensures
        views(r@) == copy_args_spec(source@, destination@),
{
    let fixed = esp_backup_robocopy_args();
    let rest = strings_of(&fixed);
    let mut r: Vec<String> = Vec::new();
    r.push(source);
    r.push(destination.to_owned());
    let ghost head = r@;
    let mut i: usize = 0;
    while i < rest.len()
        invariant
            i <= rest@.len(),
            views(rest@) == esp_backup_args_spec(),
            views(head) == seq![source@, destination@],
            views(r@) =~= views(head) + views(rest@).take(i as int),
        decreases rest@.len() - i,
    {
        let ghost before = r@;
        r.push(rest[i].clone());
        proof {
            assert(views(r@) =~= views(before).push(rest@[i as int]@));
            assert(views(rest@).take(i + 1) =~= views(rest@).take(i as int).push(rest@[i as int]@));
        }
        i += 1;
    }
    assert(views(rest@).take(rest@.len() as int) =~= views(rest@));
    r
}

fn run_action(program: &str, args: Vec<String>) -> (a: CheckpointAction)
    ensures
        a matches CheckpointAction::Run { program: p, args: given } && p@ == program@ && given
            == args,
{
    CheckpointAction::Run { program: program.to_owned(), args }
}

impl CheckpointRun {
    /// A drive is mounted exactly from the mount until the copy is judged.
    pub open spec fn wf(&self) -> bool {
        &&& (self.phase is CreatingDirectories || self.phase is CheckingDrives) ==> self.mounted is None
        &&& (self.phase is Mounting || self.phase is Unmounting) ==> self.mounted is Some
    }

    /// Starts a checkpoint of the ESP `esp` into `backup_root`: the ESP copy
    /// goes to `esp` below it and the boot configuration export to
    /// `bcd-store.bak`.
    pub fn start(esp: &EspInfo, backup_root: &str) -> (res: (CheckpointRun, CheckpointAction))
        ensures
            res.0.wf(),
            res.0.phase == CheckpointPhase::CreatingDirectories,
            res.0.mount_point@ == esp.mount_point@,
            res.0.mounted is None,
            ordinary_path(backup_root@) ==> joined(backup_root@, "esp"@, res.0.esp_backup_dir@),
            ordinary_path(backup_root@) ==> joined(
                backup_root@,
                "bcd-store.bak"@,
                res.0.bcd_store_path@,
            ),
            res.1 matches CheckpointAction::CreateDirectories { paths } && views(paths@) == seq![
                backup_root@,
                res.0.esp_backup_dir@,
            ],
    {
        proof {
            reveal_strlit("esp");
            reveal_strlit("bcd-store.bak");
            lemma_word_plain("esp"@);
            lemma_word_plain("bcd-store.bak"@);
        }
        let esp_backup_dir = join_path(backup_root, "esp");
        let bcd_store_path = join_path(backup_root, "bcd-store.bak");
        let paths = vec![backup_root.to_owned(), esp_backup_dir.clone()];
        assert(views(paths@) =~= seq![backup_root@, esp_backup_dir@]);
        let run = CheckpointRun {
            phase: CheckpointPhase::CreatingDirectories,
            mount_point: esp.mount_point.clone(),
            esp_backup_dir,
            bcd_store_path,
            mounted: None,
            robocopy_code: 0,
        };
        (run, CheckpointAction::CreateDirectories { paths })
    }

    /// Whether the run takes `event` now.
    pub fn accepts(&self, event: &CheckpointEvent) -> (r: bool)
        ensures
            r == checkpoint_accepts(self.phase, *event),
    {
        match self.phase {
            CheckpointPhase::CreatingDirectories => match event {
                CheckpointEvent::Completed | CheckpointEvent::Failed(_) => true,
                _ => false,
            },
            CheckpointPhase::CheckingDrives => match event {
                CheckpointEvent::PathsExist(v) => v.len() == 7,
                _ => false,
            },
            CheckpointPhase::Finished => false,
            _ => match event {
                CheckpointEvent::Ran(_) | CheckpointEvent::Failed(_) => true,
                _ => false,
            },
        }
    }

    /// Takes the outcome of the last action and decides the next one.
    /// Any failure ends the run with its error, except that of unmounting:
    /// whatever became of the unmount, the copy is judged next.
    pub fn step(&mut self, event: CheckpointEvent) -> (action: CheckpointAction)
        requires
            old(self).wf(),
            checkpoint_accepts(old(self).phase, event),
        ensures
            final(self).wf(),
            final(self).mount_point == old(self).mount_point,
            final(self).esp_backup_dir == old(self).esp_backup_dir,
            final(self).bcd_store_path == old(self).bcd_store_path,
            event matches CheckpointEvent::Failed(e) ==> (!(old(self).phase is Unmounting) ==> final(self).phase == CheckpointPhase::Finished && action == CheckpointAction::Finish(Err(e))),
            // After the directories: copy from the mount point, or look for a free drive letter.
            old(self).phase is CreatingDirectories && event is Completed && usable_mount_point_spec(
                old(self).mount_point@,
            ) ==> final(self).phase == CheckpointPhase::Copying && final(self).mounted is None && (
            action matches CheckpointAction::Run { program, args } && program@ == "robocopy"@
                && views(args@) == copy_args_spec(
                root_path_spec(old(self).mount_point@),
                old(self).esp_backup_dir@,
            )),
            old(self).phase is CreatingDirectories && event is Completed && !usable_mount_point_spec(
                old(self).mount_point@,
            ) ==> final(self).phase == CheckpointPhase::CheckingDrives && (
            action matches CheckpointAction::CheckPathsExist { paths } && views(paths@)
                == drive_roots_spec()),
            // A free drive letter is mounted; none ends the run.
            event matches CheckpointEvent::PathsExist(v) ==> (forall|k: int|
                #[trigger] first_free(v@, k) ==> final(self).phase == CheckpointPhase::Mounting
                    && final(self).mounted == Some(drive_letters_spec()[k]) && (
                action matches CheckpointAction::Run { program, args } && program@ == "mountvol"@
                    && views(args@) == seq![seq![drive_letters_spec()[k], ':'], "/s"@])),
            event matches CheckpointEvent::PathsExist(v) ==> ((forall|j: int|
                0 <= j < v@.len() ==> #[trigger] v@[j]) ==> final(self).phase
                == CheckpointPhase::Finished && (action matches CheckpointAction::Finish(Err(e))
                && e.is(AppErrorKind::Io, no_drive_letter_message()))),
            // The mount either succeeded, and the copy runs from the drive, or failed.
            event matches CheckpointEvent::Ran(o) ==> (old(self).phase is Mounting ==> if o.success {
                final(self).phase == CheckpointPhase::Copying && final(self).mounted
                    == old(self).mounted && (action matches CheckpointAction::Run { program, args }
                    && program@ == "robocopy"@ && views(args@) == copy_args_spec(
                    seq![old(self).mounted->0, ':', '\\'],
                    old(self).esp_backup_dir@,
                ))
            } else {
                final(self).phase == CheckpointPhase::Finished && (action matches CheckpointAction::Finish(
                    Err(e),
                ) && e.is(AppErrorKind::Io, mount_failure_message(old(self).mounted->0, o.status@)))
            }),
            // After the copy: unmount a drive mounted for it, then judge the copy.
            event matches CheckpointEvent::Ran(o) ==> (old(self).phase is Copying ==> {
                let code: i32 = match o.code {
                    Some(c) => c,
                    None => 16,
                };
                &&& final(self).robocopy_code == code
                &&& old(self).mounted matches Some(l) ==> final(self).phase
                    == CheckpointPhase::Unmounting && (action matches CheckpointAction::Run {
                    program,
                    args,
                } && program@ == "mountvol"@ && views(args@) == seq![seq![l, ':'], "/d"@])
                &&& old(self).mounted is None ==> final(self).after_copy(action)
            }),
            old(self).phase is Unmounting ==> final(self).robocopy_code == old(self).robocopy_code && final(self).after_copy(action),
            // The export either succeeded, giving the checkpoint, or failed.
            event matches CheckpointEvent::Ran(o) ==> (old(self).phase is Exporting ==> final(self).phase == CheckpointPhase::Finished && if o.success {
                action matches CheckpointAction::Finish(Ok(c)) && c.esp_backup_dir
                    == old(self).esp_backup_dir && c.bcd_store_path == old(self).bcd_store_path
                    && views(c.notes@) == checkpoint_notes_spec()
            } else {
                action matches CheckpointAction::Finish(Err(e)) && e.is(
                    AppErrorKind::Io,
                    export_failure_message(o.status@),
                )
            }),
    {
        match event {
            CheckpointEvent::Failed(e) => {
                if self.phase == CheckpointPhase::Unmounting {
                    return self.judge_copy();
                }
                self.phase = CheckpointPhase::Finished;
                CheckpointAction::Finish(Err(e))
            },
            CheckpointEvent::Completed => {
                if is_usable_mount_point(self.mount_point.as_str()) {
                    let source = normalize_root_path(self.mount_point.as_str());
                    self.phase = CheckpointPhase::Copying;
                    run_action("robocopy", copy_args(source, self.esp_backup_dir.as_str()))
                } else {
                    self.phase = CheckpointPhase::CheckingDrives;
                    let letters = temporary_drive_letters();
                    let mut paths: Vec<String> = Vec::new();
                    let mut i: usize = 0;
                    while i < 7
                        invariant
                            i <= 7,
                            letters@ == drive_letters_spec(),
                            views(paths@) =~= drive_roots_spec().take(i as int),
                        decreases 7 - i,
                    {
                        let ghost before = paths@;
                        let root = drive_root(letters[i]);
                        paths.push(root);
                        proof {
                            assert(views(paths@) =~= views(before).push(root@));
                            assert(drive_roots_spec().take(i + 1) =~= drive_roots_spec().take(
                                i as int,
                            ).push(drive_roots_spec()[i as int]));
                        }
                        i += 1;
                    }
                    assert(drive_roots_spec().take(7) =~= drive_roots_spec());
                    CheckpointAction::CheckPathsExist { paths }
                }
            },
            CheckpointEvent::PathsExist(in_use) => {
                let letters = temporary_drive_letters();
                let mut k: usize = 0;
                while k < 7 && in_use[k]
                    invariant
                        k <= 7,
                        in_use@.len() == 7,
                        forall|j: int| 0 <= j < k ==> in_use@[j],
                    decreases 7 - k,
                {
                    k += 1;
                }
                if k == 7 {
                    self.phase = CheckpointPhase::Finished;
                    return CheckpointAction::Finish(
                        Err(
                            AppError::new(
                                AppErrorKind::Io,
                                "unable to find a temporary drive letter for mounting the ESP".to_owned(),
                            ),
                        ),
                    );
                }
                proof {
                    assert(first_free(in_use@, k as int));
                    assert forall|k2: int| #[trigger] first_free(in_use@, k2) implies k2 == k by {
                        if k2 < k {
                        } else if k2 > k {
                            assert(in_use@[k as int]);
                        }
                    }
                }
                let letter = letters[k];
                self.mounted = Some(letter);
                self.phase = CheckpointPhase::Mounting;
                let mut target = String::new();
                target.push(letter);
                target.push(':');
                assert(target@ =~= seq![letter, ':']);
                let args = vec![target, "/s".to_owned()];
                assert(views(args@) =~= seq![seq![letter, ':'], "/s"@]);
                run_action("mountvol", args)
            },
            CheckpointEvent::Ran(outcome) => {
                match self.phase {
                    CheckpointPhase::Mounting => {
                        let letter = match self.mounted {
                            Some(l) => l,
                            None => ' ',
                        };
                        if outcome.success {
                            self.phase = CheckpointPhase::Copying;
                            let source = drive_root(letter);
                            run_action("robocopy", copy_args(source, self.esp_backup_dir.as_str()))
                        } else {
                            self.phase = CheckpointPhase::Finished;
                            let mut m = "mountvol ".to_owned();
                            m.push(letter);
                            m.push(':');
                            push_str(&mut m, " /s failed with exit status ");
                            push_str(&mut m, outcome.status.as_str());
                            assert(m@ =~= mount_failure_message(letter, outcome.status@));
                            CheckpointAction::Finish(Err(AppError::new(AppErrorKind::Io, m)))
                        }
                    },
                    CheckpointPhase::Copying => {
                        self.robocopy_code = match outcome.code {
                            Some(c) => c,
                            None => 16,
                        };
                        match self.mounted {
                            Some(l) => {
                                self.phase = CheckpointPhase::Unmounting;
                                let mut target = String::new();
                                target.push(l);
                                target.push(':');
                                assert(target@ =~= seq![l, ':']);
                                let args = vec![target, "/d".to_owned()];
                                assert(views(args@) =~= seq![seq![l, ':'], "/d"@]);
                                run_action("mountvol", args)
                            },
                            None => self.judge_copy(),
                        }
                    },
                    CheckpointPhase::Unmounting => self.judge_copy(),
                    _ => {
                        self.phase = CheckpointPhase::Finished;
                        if outcome.success {
                            CheckpointAction::Finish(
                                Ok(
                                    backup_checkpoint(
                                        self.esp_backup_dir.clone(),
                                        self.bcd_store_path.clone(),
                                    ),
                                ),
                            )
                        } else {
                            let mut m = "bcdedit /export failed with exit status ".to_owned();
                            push_str(&mut m, outcome.status.as_str());
                            CheckpointAction::Finish(Err(AppError::new(AppErrorKind::Io, m)))
                        }
                    },
                }
            },
        }
    }

    /// What follows a finished copy: a failed copy ends the run with
    /// robocopy's exit code, a successful one goes on to the export.
    pub open spec fn after_copy(&self, action: CheckpointAction) -> bool {
        if robocopy_succeeded_spec(self.robocopy_code) {
            self.phase == CheckpointPhase::Exporting && (action matches CheckpointAction::Run {
                program,
                args,
            } && program@ == "bcdedit"@ && views(args@) == seq!["/export"@, self.bcd_store_path@])
        } else {
            self.phase == CheckpointPhase::Finished && (action matches CheckpointAction::Finish(
                Err(e),
            ) && e.is(
                AppErrorKind::Io,
                "robocopy failed while backing up the ESP with exit code "@ + signed_decimal_spec(
                    self.robocopy_code as int,
                ),
            ))
        }
    }

    fn judge_copy(&mut self) -> (action: CheckpointAction)
        requires
            old(self).phase is Copying || old(self).phase is Unmounting,
        ensures
            final(self).wf(),
            final(self).mount_point == old(self).mount_point,
            final(self).esp_backup_dir == old(self).esp_backup_dir,
            final(self).bcd_store_path == old(self).bcd_store_path,
            final(self).robocopy_code == old(self).robocopy_code,
            final(self).mounted == old(self).mounted,
            final(self).after_copy(action),
    {
        if robocopy_succeeded(self.robocopy_code) {
            self.phase = CheckpointPhase::Exporting;
            let args = vec!["/export".to_owned(), self.bcd_store_path.clone()];
            assert(views(args@) =~= seq!["/export"@, self.bcd_store_path@]);
            run_action("bcdedit", args)
        } else {
            self.phase = CheckpointPhase::Finished;
            CheckpointAction::Finish(Err(robocopy_failure_error(self.robocopy_code)))
        }
    }
}

/// Robocopy exit codes 0 to 7 mean success.
pub open spec fn robocopy_succeeded_spec(code: i32) -> bool {
    0 <= code <= 7
}

} // verus!
