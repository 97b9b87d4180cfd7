//! Registering a staged WinPE payload as an additive boot entry: the
//! decisions between the host's `bcdedit` runs.
//!
//! The run creates the entry, finds or creates the shared ramdisk options
//! object, points the options at the staged `boot.sdi`, points the entry
//! at the staged WIM (trying the staging volume, then the boot device),
//! sets the WinPE loader values and appends the entry to the display
//! order. Once the options object is settled, any failure deletes the new
//! entry before the run ends with the error.

use vstd::prelude::*;
use crate::error::{AppError, AppErrorKind};
use crate::json::views;
use crate::text::push_str;
use crate::windows::{
    bcd_guid_spec, bcdedit_failure_message, command_output_spec, join_command_output,
    parse_guid_from_bcd_output, ramdisk_candidates_spec, ramdisk_device_candidates,
    volume_relative_spec, windows_volume_relative_path, BootEntryRegistration, CommandOutcome,
    WinPeStaging,
};

verus! {

broadcast use vstd::seq_lib::group_seq_properties;

/// Where a registration run stands.
#[derive(Debug, Clone, Copy, PartialEq, Eq, Structural)]
pub enum RegistrationPhase {
    CreatingEntry,
    FindingOptions,
    CreatingOptions,
    SettingSdiDevice,
    SettingSdiPath,
    /// Setting the entry's device to the candidate at this position.
    SettingDevice(usize),
    /// Setting the entry's OS device to the candidate at this position.
    SettingOsDevice(usize),
    /// Setting the loader value at this position.
    SettingValue(usize),
    AddingToDisplayOrder,
    DeletingEntry,
    Finished,
}

/// A host action of a registration run.
pub enum RegistrationAction {
    /// Run `bcdedit` with these arguments and report how it ended.
    RunBcdedit { args: Vec<String> },
    /// The run is over with this outcome.
    Finish(Result<BootEntryRegistration, AppError>),
}

/// How the last `bcdedit` run went.
pub enum RegistrationEvent {
    /// It could not be started.
    Failed(AppError),
    /// It ran and ended so.
    Ran(CommandOutcome),
}

/// A run registering one staged payload.
pub struct RegistrationRun {
    pub phase: RegistrationPhase,
    pub staging: WinPeStaging,
    pub display_name: String,
    pub entry_id: String,
    pub options_id: String,
    pub candidates: Vec<String>,
    pub failure: Option<AppError>,
}

/// The identifier of the shared ramdisk options object.
pub open spec fn options_object_spec() -> Seq<char> {
    "{ramdiskoptions}"@
}

/// The loader values set on a WinPE entry, in order.
pub open spec fn loader_values_spec() -> Seq<(Seq<char>, Seq<char>)> {
    seq![
        ("path"@, "\\Windows\\System32\\winload.efi"@),
        ("systemroot"@, "\\Windows"@),
        ("winpe"@, "yes"@),
        ("detecthal"@, "yes"@),
        ("nx"@, "OptIn"@),
    ]
}

/// What a `bcdedit /set` is described as in its error.
pub open spec fn set_action(key: Seq<char>, object: Seq<char>) -> Seq<char> {
    "set "@ + key + " on "@ + object
}

/// The arguments setting `key` to `value` on `object`.
pub open spec fn set_args(object: Seq<char>, key: Seq<char>, value: Seq<char>) -> Seq<Seq<char>> {
    seq!["/set"@, object, key, value]
}

/// The error a `bcdedit` run described as `action` ends with, if any: the
/// failure to start it, or its exit status with its joined output.
pub open spec fn bcd_error(action: Seq<char>, event: RegistrationEvent) -> Option<(AppErrorKind, Seq<char>)> {
    match event {
        RegistrationEvent::Failed(e) => Some((e.kind_view(), e.message_view())),
        RegistrationEvent::Ran(o) => if o.success {
            None
        } else {
            Some(
                (
                    AppErrorKind::Io,
                    bcdedit_failure_message(action, o.status@, command_output_spec(o.stdout@, o.stderr@)),
                ),
            )
        },
    }
}

/// `action` runs `bcdedit` with `args`.
pub open spec fn runs(action: RegistrationAction, args: Seq<Seq<char>>) -> bool {
    action matches RegistrationAction::RunBcdedit { args: a } && views(a@) == args
}

/// Whether a run in `phase` takes an event (any outcome of its `bcdedit`
/// run) at all.
pub open spec fn registration_accepts(phase: RegistrationPhase) -> bool {
    !(phase is Finished)
}

fn bcd_result(action: &str, event: RegistrationEvent) -> (r: Result<(), AppError>)
    ensures
        match bcd_error(action@, event) {
            None => r is Ok,
            Some((k, m)) => r is Err && r->Err_0.is(k, m),
        },
{
    match event {
        RegistrationEvent::Failed(e) => Err(e),
        RegistrationEvent::Ran(o) => {
            if o.success {
                Ok(())
            } else {
                let detail = join_command_output(o.stdout.as_str(), o.stderr.as_str());
                let mut m = "bcdedit failed to ".to_owned();
                push_str(&mut m, action);
                push_str(&mut m, " with exit status ");
                push_str(&mut m, o.status.as_str());
                if !detail.as_str().is_empty() {
                    push_str(&mut m, ": ");
                    push_str(&mut m, detail.as_str());
                }
                Err(AppError::new(AppErrorKind::Io, m))
            }
        },
    }
}

fn cat2(a: &str, b: &str) -> (r: String)
    ensures
        r@ == a@ + b@,
{
    let mut r = a.to_owned();
    push_str(&mut r, b);
    r
}

fn cat3(a: &str, b: &str, c: &str) -> (r: String)
    ensures
        r@ == a@ + b@ + c@,
{
    let mut r = cat2(a, b);
    push_str(&mut r, c);
    r
}

fn bcdedit2(a: &str, b: &str) -> (r: RegistrationAction)
    ensures
        runs(r, seq![a@, b@]),
{
    let args = vec![a.to_owned(), b.to_owned()];
    assert(views(args@) =~= seq![a@, b@]);
    RegistrationAction::RunBcdedit { args }
}

fn bcdedit3(a: &str, b: &str, c: &str) -> (r: RegistrationAction)
    ensures
        runs(r, seq![a@, b@, c@]),
{
    let args = vec![a.to_owned(), b.to_owned(), c.to_owned()];
    assert(views(args@) =~= seq![a@, b@, c@]);
    RegistrationAction::RunBcdedit { args }
}

fn bcdedit4(a: &str, b: &str, c: &str, d: &str) -> (r: RegistrationAction)
    ensures
        runs(r, seq![a@, b@, c@, d@]),
{
    let args = vec![a.to_owned(), b.to_owned(), c.to_owned(), d.to_owned()];
    assert(views(args@) =~= seq![a@, b@, c@, d@]);
    RegistrationAction::RunBcdedit { args }
}

fn bcdedit5(a: &str, b: &str, c: &str, d: &str, e: &str) -> (r: RegistrationAction)
    ensures
        runs(r, seq![a@, b@, c@, d@, e@]),
{
    let args = vec![a.to_owned(), b.to_owned(), c.to_owned(), d.to_owned(), e.to_owned()];
    assert(views(args@) =~= seq![a@, b@, c@, d@, e@]);
    RegistrationAction::RunBcdedit { args }
}

fn loader_value(i: usize) -> (kv: (&'static str, &'static str))
    requires
        i < 5,
    ensures
        (kv.0@, kv.1@) == loader_values_spec()[i as int],
{
    match i {
        0 => ("path", "\\Windows\\System32\\winload.efi"),
        1 => ("systemroot", "\\Windows"),
        2 => ("winpe", "yes"),
        3 => ("detecthal", "yes"),
        _ => ("nx", "OptIn"),
    }
}

impl RegistrationRun {
    /// What each phase holds: the device candidates once the options object
    /// is settled, a position in range, and the failure to report while
    /// the entry is deleted.
    pub open spec fn wf(&self) -> bool {
        &&& (self.phase matches RegistrationPhase::SettingDevice(i) ==> i < 2)
        &&& (self.phase matches RegistrationPhase::SettingOsDevice(i) ==> i < 2)
        &&& (self.phase matches RegistrationPhase::SettingValue(i) ==> i < 5)
        &&& self.configuring() ==> self.candidates@.len() == 2
        &&& self.phase is DeletingEntry ==> self.failure is Some
    }

    /// The phases after the options object is settled, before the end.
    pub open spec fn configuring(&self) -> bool {
        ||| self.phase is SettingSdiDevice
        ||| self.phase is SettingSdiPath
        ||| self.phase is SettingDevice
        ||| self.phase is SettingOsDevice
        ||| self.phase is SettingValue
        ||| self.phase is AddingToDisplayOrder
    }

    /// The run deletes its entry before ending with the given error.
    pub open spec fn undoing(&self, kind: AppErrorKind, message: Seq<char>, action: RegistrationAction) -> bool {
        &&& self.phase == RegistrationPhase::DeletingEntry
        &&& self.failure matches Some(f) && f.is(kind, message)
        &&& runs(action, seq!["/delete"@, self.entry_id@])
    }

    /// The run has settled the options object and starts configuring: with
    /// the WIM's path on the staging volume it points the options at the
    /// staged `boot.sdi`; without one it deletes the entry.
    pub open spec fn entered_configuration(&self, action: RegistrationAction) -> bool {
        let volume = self.staging.target_volume@;
        match volume_relative_spec(self.staging.boot_wim_path@, volume) {
            Err(m) => self.undoing(AppErrorKind::Validation, m, action),
            Ok(wim) => {
                &&& self.phase == RegistrationPhase::SettingSdiDevice
                &&& views(self.candidates@) == ramdisk_candidates_spec(volume, wim, self.options_id@)
                &&& runs(
                    action,
                    set_args(self.options_id@, "ramdisksdidevice"@, "partition="@ + volume),
                )
            },
        }
    }

    /// Starts registering `staging` under `display_name`.
    pub fn start(staging: WinPeStaging, display_name: &str) -> (res: (RegistrationRun, RegistrationAction))
        ensures
            res.0.wf(),
            res.0.phase == RegistrationPhase::CreatingEntry,
            res.0.staging == staging,
            res.0.display_name@ == display_name@,
            runs(res.1, seq!["/create"@, "/d"@, display_name@, "/application"@, "osloader"@]),
    {
        let action = bcdedit5("/create", "/d", display_name, "/application", "osloader");
        let run = RegistrationRun {
            phase: RegistrationPhase::CreatingEntry,
            staging,
            display_name: display_name.to_owned(),
            entry_id: String::new(),
            options_id: String::new(),
            candidates: Vec::new(),
            failure: None,
        };
        (run, action)
    }

    /// Whether the run takes an event now.
    pub fn accepts(&self) -> (r: bool)
        ensures
            r == registration_accepts(self.phase),
    {
        match self.phase {
            RegistrationPhase::Finished => false,
            _ => true,
        }
    }

    fn undo(&mut self, failure: AppError) -> (action: RegistrationAction)
        ensures
            final(self).wf(),
            final(self).undoing(failure.kind_view(), failure.message_view(), action),
            final(self).staging == old(self).staging,
            final(self).display_name == old(self).display_name,
            final(self).entry_id == old(self).entry_id,
            final(self).options_id == old(self).options_id,
            final(self).candidates == old(self).candidates,
    {
        self.failure = Some(failure);
        self.phase = RegistrationPhase::DeletingEntry;
        bcdedit2("/delete", self.entry_id.as_str())
    }

    fn configure(&mut self) -> (action: RegistrationAction)
        ensures
            final(self).wf(),
            final(self).entered_configuration(action),
            final(self).staging == old(self).staging,
            final(self).display_name == old(self).display_name,
            final(self).entry_id == old(self).entry_id,
            final(self).options_id == old(self).options_id,
    {
        let volume = self.staging.target_volume.clone();
        match windows_volume_relative_path(self.staging.boot_wim_path.as_str(), volume.as_str()) {
            Err(e) => self.undo(e),
            Ok(wim) => {
                self.candidates = ramdisk_device_candidates(
                    volume.as_str(),
                    wim.as_str(),
                    self.options_id.as_str(),
                );
                self.phase = RegistrationPhase::SettingSdiDevice;
                assert(views(self.candidates@).len() == 2);
                assert(self.candidates@.len() == 2);
                let mut device = "partition=".to_owned();
                push_str(&mut device, volume.as_str());
                bcdedit4("/set", self.options_id.as_str(), "ramdisksdidevice", device.as_str())
            },
        }
    }

    /// Takes the outcome of the last `bcdedit` run and decides the next one.
    pub fn step(&mut self, event: RegistrationEvent) -> (action: RegistrationAction)
        requires
            old(self).wf(),
            registration_accepts(old(self).phase),
        ensures
            final(self).wf(),
            final(self).staging == old(self).staging,
            final(self).display_name == old(self).display_name,
            old(self).phase is CreatingEntry ==> match event {
                RegistrationEvent::Failed(e) => final(self).phase == RegistrationPhase::Finished
                    && action == RegistrationAction::Finish(Err(e)),
                RegistrationEvent::Ran(o) => if !o.success {
                    final(self).phase == RegistrationPhase::Finished && (action matches RegistrationAction::Finish(
                        Err(e),
                    ) && e.is(
                        AppErrorKind::Io,
                        "bcdedit /create for "@ + old(self).display_name@ + " failed with exit status "@
                            + o.status@,
                    ))
                } else {
                    match bcd_guid_spec(o.stdout@) {
                        Err(m) => final(self).phase == RegistrationPhase::Finished && (
                        action matches RegistrationAction::Finish(Err(e)) && e.is(
                            AppErrorKind::Validation,
                            m,
                        )),
                        Ok(id) => final(self).phase == RegistrationPhase::FindingOptions
                            && final(self).entry_id@ == id && runs(
                            action,
                            seq!["/enum"@, options_object_spec()],
                        ),
                    }
                },
            },
            old(self).phase is FindingOptions ==> match event {
                RegistrationEvent::Failed(e) => final(self).phase == RegistrationPhase::Finished
                    && action == RegistrationAction::Finish(Err(e)),
                RegistrationEvent::Ran(o) => if o.success {
                    final(self).options_id@ == options_object_spec() && final(self).entry_id
                        == old(self).entry_id && final(self).entered_configuration(action)
                } else {
                    final(self).phase == RegistrationPhase::CreatingOptions && final(self).entry_id
                        == old(self).entry_id && runs(
                        action,
                        seq![
                            "/create"@,
                            options_object_spec(),
                            "/d"@,
                            "PartBooter ramdisk options"@,
                        ],
                    )
                },
            },
            old(self).phase is CreatingOptions ==> match event {
                RegistrationEvent::Failed(e) => final(self).phase == RegistrationPhase::Finished
                    && action == RegistrationAction::Finish(Err(e)),
                RegistrationEvent::Ran(o) => if o.success {
                    final(self).options_id@ == options_object_spec() && final(self).entry_id
                        == old(self).entry_id && final(self).entered_configuration(action)
                } else {
                    final(self).phase == RegistrationPhase::Finished && (action matches RegistrationAction::Finish(
                        Err(e),
                    ) && e.is(
                        AppErrorKind::Io,
                        bcdedit_failure_message(
                            "create "@ + options_object_spec(),
                            o.status@,
                            command_output_spec(o.stdout@, o.stderr@),
                        ),
                    ))
                },
            },
            old(self).phase is SettingSdiDevice ==> match bcd_error(
                set_action("ramdisksdidevice"@, old(self).options_id@),
                event,
            ) {
                Some((k, m)) => final(self).undoing(
                    k,
                    "failed to set ramdisksdidevice using partition="@
                        + old(self).staging.target_volume@ + ": "@ + m,
                    action,
                ),
                None => final(self).phase == RegistrationPhase::SettingSdiPath && runs(
                    action,
                    set_args(
                        old(self).options_id@,
                        "ramdisksdipath"@,
                        old(self).staging.boot_sdi_relative_path@,
                    ),
                ),
            },
            old(self).phase is SettingSdiPath ==> match bcd_error(
                set_action("ramdisksdipath"@, old(self).options_id@),
                event,
            ) {
                Some((k, m)) => final(self).undoing(k, m, action),
                None => final(self).phase == RegistrationPhase::SettingDevice(0) && runs(
                    action,
                    set_args(old(self).entry_id@, "device"@, old(self).candidates@[0]@),
                ),
            },
            old(self).phase matches RegistrationPhase::SettingDevice(i) ==> match bcd_error(
                set_action("device"@, old(self).entry_id@),
                event,
            ) {
                None => final(self).phase == RegistrationPhase::SettingOsDevice(i) && runs(
                    action,
                    set_args(old(self).entry_id@, "osdevice"@, old(self).candidates@[i as int]@),
                ),
                Some((k, m)) => if i + 1 < 2 {
                    final(self).phase == RegistrationPhase::SettingDevice((i + 1) as usize) && runs(
                        action,
                        set_args(old(self).entry_id@, "device"@, old(self).candidates@[i + 1]@),
                    )
                } else {
                    final(self).undoing(
                        k,
                        "failed to set device to "@ + old(self).candidates@[i as int]@ + ": "@ + m,
                        action,
                    )
                },
            },
            old(self).phase matches RegistrationPhase::SettingOsDevice(i) ==> match bcd_error(
                set_action("osdevice"@, old(self).entry_id@),
                event,
            ) {
                Some((k, m)) => final(self).undoing(
                    k,
                    "failed to set osdevice to "@ + old(self).candidates@[i as int]@ + ": "@ + m,
                    action,
                ),
                None => final(self).phase == RegistrationPhase::SettingValue(0) && runs(
                    action,
                    set_args(
                        old(self).entry_id@,
                        loader_values_spec()[0].0,
                        loader_values_spec()[0].1,
                    ),
                ),
            },
            old(self).phase matches RegistrationPhase::SettingValue(i) ==> match bcd_error(
                set_action(loader_values_spec()[i as int].0, old(self).entry_id@),
                event,
            ) {
                Some((k, m)) => final(self).undoing(k, m, action),
                None => if i + 1 < 5 {
                    final(self).phase == RegistrationPhase::SettingValue((i + 1) as usize) && runs(
                        action,
                        set_args(
                            old(self).entry_id@,
                            loader_values_spec()[i + 1].0,
                            loader_values_spec()[i + 1].1,
                        ),
                    )
                } else {
                    final(self).phase == RegistrationPhase::AddingToDisplayOrder && runs(
                        action,
                        seq!["/displayorder"@, old(self).entry_id@, "/addlast"@],
                    )
                },
            },
            old(self).phase is AddingToDisplayOrder ==> match bcd_error(
                "add "@ + old(self).entry_id@ + " to display order"@,
                event,
            ) {
                Some((k, m)) => final(self).undoing(k, m, action),
                None => final(self).phase == RegistrationPhase::Finished && (
                action matches RegistrationAction::Finish(Ok(r)) && r.entry_id == old(self).entry_id
                    && r.ramdisk_options_id == old(self).options_id && r.display_name == old(
                    self,
                ).display_name),
            },
            old(self).phase is DeletingEntry ==> final(self).phase == RegistrationPhase::Finished
                && action == RegistrationAction::Finish(Err(old(self).failure->0)),
    {
        match self.phase {
            RegistrationPhase::CreatingEntry => match event {
                RegistrationEvent::Failed(e) => {
                    self.phase = RegistrationPhase::Finished;
                    RegistrationAction::Finish(Err(e))
                },
                RegistrationEvent::Ran(o) => {
                    if !o.success {
                        self.phase = RegistrationPhase::Finished;
                        let mut m = "bcdedit /create for ".to_owned();
                        push_str(&mut m, self.display_name.as_str());
                        push_str(&mut m, " failed with exit status ");
                        push_str(&mut m, o.status.as_str());
                        return RegistrationAction::Finish(Err(AppError::new(AppErrorKind::Io, m)));
                    }
                    match parse_guid_from_bcd_output(o.stdout.as_str()) {
                        Err(e) => {
                            self.phase = RegistrationPhase::Finished;
                            RegistrationAction::Finish(Err(e))
                        },
                        Ok(id) => {
                            self.entry_id = id;
                            self.phase = RegistrationPhase::FindingOptions;
                            bcdedit2("/enum", "{ramdiskoptions}")
                        },
                    }
                },
            },
            RegistrationPhase::FindingOptions => match event {
                RegistrationEvent::Failed(e) => {
                    self.phase = RegistrationPhase::Finished;
                    RegistrationAction::Finish(Err(e))
                },
                RegistrationEvent::Ran(o) => {
                    if o.success {
                        self.options_id = "{ramdiskoptions}".to_owned();
                        self.configure()
                    } else {
                        self.phase = RegistrationPhase::CreatingOptions;
                        bcdedit4("/create", "{ramdiskoptions}", "/d", "PartBooter ramdisk options")
                    }
                },
            },
            RegistrationPhase::CreatingOptions => match event {
                RegistrationEvent::Failed(e) => {
                    self.phase = RegistrationPhase::Finished;
                    RegistrationAction::Finish(Err(e))
                },
                RegistrationEvent::Ran(o) => {
                    if o.success {
                        self.options_id = "{ramdiskoptions}".to_owned();
                        self.configure()
                    } else {
                        self.phase = RegistrationPhase::Finished;
                        let r = bcd_result("create {ramdiskoptions}", RegistrationEvent::Ran(o));
                        proof {
                            reveal_strlit("create {ramdiskoptions}");
                            reveal_strlit("create ");
                            reveal_strlit("{ramdiskoptions}");
                            assert("create {ramdiskoptions}"@ =~= "create "@ + options_object_spec());
                        }
                        match r {
                            Err(e) => RegistrationAction::Finish(Err(e)),
                            Ok(()) => RegistrationAction::Finish(Err(AppError::new(AppErrorKind::Io, String::new()))),
                        }
                    }
                },
            },
            RegistrationPhase::SettingSdiDevice => {
                let what = cat2("set ramdisksdidevice on ", self.options_id.as_str());
                proof {
                    reveal_strlit("set ramdisksdidevice on ");
                    reveal_strlit("set ");
                    reveal_strlit("ramdisksdidevice");
                    reveal_strlit(" on ");
                    assert(what@ =~= set_action("ramdisksdidevice"@, self.options_id@));
                }
                match bcd_result(what.as_str(), event) {
                    Err(e) => {
                        let mut m = "failed to set ramdisksdidevice using partition=".to_owned();
                        push_str(&mut m, self.staging.target_volume.as_str());
                        push_str(&mut m, ": ");
                        push_str(&mut m, e.message());
                        let failure = AppError::new(e.kind(), m);
                        self.undo(failure)
                    },
                    Ok(()) => {
                        self.phase = RegistrationPhase::SettingSdiPath;
                        bcdedit4("/set", self.options_id.as_str(), "ramdisksdipath", self.staging.boot_sdi_relative_path.as_str())
                    },
                }
            },
            RegistrationPhase::SettingSdiPath => {
                let what = cat2("set ramdisksdipath on ", self.options_id.as_str());
                proof {
                    reveal_strlit("set ramdisksdipath on ");
                    reveal_strlit("set ");
                    reveal_strlit("ramdisksdipath");
                    reveal_strlit(" on ");
                    assert(what@ =~= set_action("ramdisksdipath"@, self.options_id@));
                }
                match bcd_result(what.as_str(), event) {
                    Err(e) => self.undo(e),
                    Ok(()) => {
                        self.phase = RegistrationPhase::SettingDevice(0);
                        bcdedit4("/set", self.entry_id.as_str(), "device", self.candidates[0].as_str())
                    },
                }
            },
            RegistrationPhase::SettingDevice(i) => {
                let what = cat2("set device on ", self.entry_id.as_str());
                proof {
                    reveal_strlit("set device on ");
                    reveal_strlit("set ");
                    reveal_strlit("device");
                    reveal_strlit(" on ");
                    assert(what@ =~= set_action("device"@, self.entry_id@));
                }
                match bcd_result(what.as_str(), event) {
                    Ok(()) => {
                        self.phase = RegistrationPhase::SettingOsDevice(i);
                        bcdedit4("/set", self.entry_id.as_str(), "osdevice", self.candidates[i].as_str())
                    },
                    Err(e) => {
                        if i + 1 < 2 {
                            self.phase = RegistrationPhase::SettingDevice(i + 1);
                            bcdedit4("/set", self.entry_id.as_str(), "device", self.candidates[i + 1].as_str())
                        } else {
                            let mut m = "failed to set device to ".to_owned();
                            push_str(&mut m, self.candidates[i].as_str());
                            push_str(&mut m, ": ");
                            push_str(&mut m, e.message());
                            let failure = AppError::new(e.kind(), m);
                            self.undo(failure)
                        }
                    },
                }
            },
            RegistrationPhase::SettingOsDevice(i) => {
                let what = cat2("set osdevice on ", self.entry_id.as_str());
                proof {
                    reveal_strlit("set osdevice on ");
                    reveal_strlit("set ");
                    reveal_strlit("osdevice");
                    reveal_strlit(" on ");
                    assert(what@ =~= set_action("osdevice"@, self.entry_id@));
                }
                match bcd_result(what.as_str(), event) {
                    Err(e) => {
                        let mut m = "failed to set osdevice to ".to_owned();
                        push_str(&mut m, self.candidates[i].as_str());
                        push_str(&mut m, ": ");
                        push_str(&mut m, e.message());
                        let failure = AppError::new(e.kind(), m);
                        self.undo(failure)
                    },
                    Ok(()) => {
                        self.phase = RegistrationPhase::SettingValue(0);
                        let (key, value) = loader_value(0);
                        bcdedit4("/set", self.entry_id.as_str(), key, value)
                    },
                }
            },
            RegistrationPhase::SettingValue(i) => {
                let (key, _) = loader_value(i);
                let mut what = cat3("set ", key, " on ");
                push_str(&mut what, self.entry_id.as_str());
                proof {
                    reveal_strlit("set ");
                    reveal_strlit(" on ");
                    assert(what@ =~= set_action(key@, self.entry_id@));
                }
                match bcd_result(what.as_str(), event) {
                    Err(e) => self.undo(e),
                    Ok(()) => {
                        if i + 1 < 5 {
                            self.phase = RegistrationPhase::SettingValue(i + 1);
                            let (next_key, next_value) = loader_value(i + 1);
                            bcdedit4("/set", self.entry_id.as_str(), next_key, next_value)
                        } else {
                            self.phase = RegistrationPhase::AddingToDisplayOrder;
                            bcdedit3("/displayorder", self.entry_id.as_str(), "/addlast")
                        }
                    },
                }
            },
            RegistrationPhase::AddingToDisplayOrder => {
                let what = cat3("add ", self.entry_id.as_str(), " to display order");
                proof {
                    reveal_strlit("add ");
                    reveal_strlit(" to display order");
                    assert(what@ =~= "add "@ + self.entry_id@ + " to display order"@);
                }
                match bcd_result(what.as_str(), event) {
                    Err(e) => self.undo(e),
                    Ok(()) => {
                        self.phase = RegistrationPhase::Finished;
                        RegistrationAction::Finish(
                            Ok(
                                BootEntryRegistration {
                                    entry_id: self.entry_id.clone(),
                                    ramdisk_options_id: self.options_id.clone(),
                                    display_name: self.display_name.clone(),
                                },
                            ),
                        )
                    },
                }
            },
            _ => {
                self.phase = RegistrationPhase::Finished;
                let mut failure = None;
                std::mem::swap(&mut failure, &mut self.failure);
                match failure {
                    Some(e) => RegistrationAction::Finish(Err(e)),
                    None => RegistrationAction::Finish(Err(AppError::new(AppErrorKind::Io, String::new()))),
                }
            },
        }
    }
}

} // verus!
