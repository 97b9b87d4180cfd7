//! The lifecycle decisions of the service: which hosts and payloads may be
//! planned, what a plan holds, and the journals and reports that record
//! what happened to an operation.

use vstd::prelude::*;
use crate::error::{AppError, AppErrorKind};
use crate::journal::{joined_twice, ordinary_path, plain_component, FileJournalStore};
use crate::json::{join_spec, join_strings, views};
use crate::linux_iso;
use crate::model::{
    ActionOutcome, OperationJournal, OperationJournalView, OperationStatus, OperationStepRecord,
    OperationStepRecordView, record_views, AdditiveBootPolicy, VerificationReport,
    VerificationReportView, ExecutionPlan, ExecutionPlanView, FirmwareMode, MachineProbe,
    MachineProbeView, PartitionStyle, PayloadKind, PayloadSpec, PayloadSpecView, PlanStep,
    PlanStepKind, PlanStepView, RiskFlag, RiskFlagView, RiskLevel, risk_views, step_views,
};
use crate::text::{
    ascii_lower, decimal_spec, lemma_decimal_digits, lemma_decimal_injective, push_decimal,
    push_str, trim, trim_spec,
};
use crate::windows::{BackupCheckpoint, BootEntryRegistration, WinPeStaging};
use crate::winpe;
use crate::linux_iso::opt_str_view;
use crate::paths::{
    ends_with, evident_extension, evident_file_name, lemma_extension_has_file_name, path_extension,
    path_file_name, path_parts_fit,
};
use crate::plan_file::opt_view;

verus! {

broadcast use vstd::seq_lib::group_seq_properties;

/// An expected outcome: a value, or an error of a category with a message.
pub open spec fn error_outcome<T: View>(
    r: Result<T, AppError>,
    spec: Result<T::V, (AppErrorKind, Seq<char>)>,
) -> bool {
    match spec {
        Ok(v) => r is Ok && r->Ok_0@ == v,
        Err((k, m)) => r is Err && r->Err_0.is(k, m),
    }
}

// ---------------------------------------------------------------------
// Host and payload checks
// ---------------------------------------------------------------------

/// Why a probe rules the host out, or `None` when it may be planned for:
/// the probe must report support, UEFI firmware, a GPT disk and a
/// resolved ESP volume, checked in that order.
pub open spec fn probe_check(p: MachineProbeView) -> Option<Seq<char>> {
    if !p.supported {
        Some(
            "PartBooter probe reported an unsupported host configuration: "@ + if p.warnings.len()
                == 0 {
                "no additional probe detail was recorded"@
            } else {
                join_spec(p.warnings, " | "@)
            },
        )
    } else if p.firmware_mode != FirmwareMode::Uefi {
        Some("PartBooter v1 only supports UEFI systems"@)
    } else if p.partition_style != PartitionStyle::Gpt {
        Some("PartBooter v1 only supports GPT disks"@)
    } else if trim_spec(p.esp.volume).len() == 0 {
        Some("PartBooter could not resolve the EFI System Partition volume path"@)
    } else {
        None
    }
}

/// Why a payload is refused, or `None` when it is supported: its first
/// note, or a generic message when it has none.
pub open spec fn payload_check(p: PayloadSpecView) -> Option<Seq<char>> {
    if p.supported {
        None
    } else if p.notes.len() > 0 {
        Some(p.notes[0])
    } else {
        Some("unsupported payload"@)
    }
}

/// Refuses a host that the probe does not show fit for planning.
pub fn validate_probe(probe: &MachineProbe) -> (r: Result<(), AppError>)
    ensures
        match probe_check(probe@) {
            None => r is Ok,
            Some(m) => r is Err && r->Err_0.is(AppErrorKind::UnsupportedEnvironment, m),
        },
{
    if !probe.supported {
        let mut message = "PartBooter probe reported an unsupported host configuration: ".to_owned();
        if probe.warnings.len() == 0 {
            push_str(&mut message, "no additional probe detail was recorded");
        } else {
            let detail = join_strings(probe.warnings.as_slice(), " | ");
            push_str(&mut message, detail.as_str());
        }
        return Err(AppError::new(AppErrorKind::UnsupportedEnvironment, message));
    }
    if probe.firmware_mode != FirmwareMode::Uefi {
        return Err(
            AppError::new(
                AppErrorKind::UnsupportedEnvironment,
                "PartBooter v1 only supports UEFI systems".to_owned(),
            ),
        );
    }
    if probe.partition_style != PartitionStyle::Gpt {
        return Err(
            AppError::new(
                AppErrorKind::UnsupportedEnvironment,
                "PartBooter v1 only supports GPT disks".to_owned(),
            ),
        );
    }
    let volume = trim(probe.esp.volume.as_str());
    if volume.as_str().is_empty() {
        return Err(
            AppError::new(
                AppErrorKind::UnsupportedEnvironment,
                "PartBooter could not resolve the EFI System Partition volume path".to_owned(),
            ),
        );
    }
    Ok(())
}

/// Refuses a payload that is not supported.
pub fn validate_payload(payload: &PayloadSpec) -> (r: Result<(), AppError>)
    ensures
        match payload_check(payload@) {
            None => r is Ok,
            Some(m) => r is Err && r->Err_0.is(AppErrorKind::Validation, m),
        },
{
    if !payload.supported {
        let message = if payload.notes.len() > 0 {
            payload.notes[0].clone()
        } else {
            "unsupported payload".to_owned()
        };
        return Err(AppError::new(AppErrorKind::Validation, message));
    }
    Ok(())
}

// ---------------------------------------------------------------------
// Payload inspection
// ---------------------------------------------------------------------

/// The payload recorded for a path no handler accepts.
pub open spec fn unsupported_payload_view(source_path: Seq<char>) -> PayloadSpecView {
    PayloadSpecView {
        source_path,
        kind: PayloadKind::Unsupported,
        display_name: "Unsupported payload"@,
        profile: "unsupported"@,
        supported: false,
        notes: seq!["Only supported Linux ISO profiles and WinPE WIM payloads are accepted in v1."@],
    }
}

/// The payload for a path with the given extension and file name: the
/// WinPE classification if that handler accepts them, else the Linux ISO
/// classification if that one does, else the unsupported payload.
pub open spec fn payload_for(
    source_path: Seq<char>,
    extension: Option<Seq<char>>,
    file_name: Option<Seq<char>>,
) -> PayloadSpecView {
    match winpe::classify_spec(source_path, extension, file_name) {
        Some(p) => p,
        None => match linux_iso::classify_spec(source_path, extension, file_name) {
            Some(p) => p,
            None => unsupported_payload_view(source_path),
        },
    }
}

/// `p` is what inspecting `source_path` gives for some extension and file
/// name the host may read from it.
pub open spec fn inspected(source_path: Seq<char>, p: PayloadSpecView) -> bool {
    exists|e: Option<Seq<char>>, n: Option<Seq<char>>|
        #[trigger] payload_for(source_path, e, n) == p && path_parts_fit(source_path, e, n)
}

/// What inspecting a path with an evident extension gives on every host: a
/// WinPE classification for `wim`, a Linux ISO classification for `iso`
/// (in any letter case), of a file name that is a suffix of the path
/// ending with its last segment; the unsupported payload for any other
/// extension.
pub open spec fn inspected_by_extension(source_path: Seq<char>, p: PayloadSpecView) -> bool {
    evident_extension(source_path) matches Some(x) ==> {
        let segment = evident_file_name(source_path)->0;
        if ascii_lower(x) == "wim"@ {
            exists|f: Seq<char>|
                #[trigger] winpe::classify_spec(source_path, Some(x), Some(f)) == Some(p)
                    && ends_with(f, segment) && ends_with(source_path, f)
        } else if ascii_lower(x) == "iso"@ {
            exists|f: Seq<char>|
                #[trigger] linux_iso::classify_spec(source_path, Some(x), Some(f)) == Some(p)
                    && ends_with(f, segment) && ends_with(source_path, f)
        } else {
            p == unsupported_payload_view(source_path)
        }
    }
}

/// Whatever the host's path syntax, a path with an evident extension is
/// inspected by that extension and its last segment.
pub proof fn inspection_follows_the_extension(source_path: Seq<char>, p: PayloadSpecView)
    requires
        inspected(source_path, p),
    ensures
        inspected_by_extension(source_path, p),
{
    let (e, n) = choose|e: Option<Seq<char>>, n: Option<Seq<char>>|
        #[trigger] payload_for(source_path, e, n) == p && path_parts_fit(source_path, e, n);
    if let Some(x) = evident_extension(source_path) {
        lemma_extension_has_file_name(source_path);
        let f = n->0;
        if ascii_lower(x) == "wim"@ {
            assert(winpe::classify_spec(source_path, Some(x), Some(f)) == Some(p));
        } else if ascii_lower(x) == "iso"@ {
            assert(linux_iso::classify_spec(source_path, Some(x), Some(f)) == Some(p));
        }
    }
}

/// Classifies a payload from its path's extension and file name.
pub fn classify_payload(source_path: &str, extension: Option<&str>, file_name: Option<&str>) -> (p:
    PayloadSpec)
    ensures
        p@ == payload_for(source_path@, opt_str_view(extension), opt_str_view(file_name)),
{
    if let Some(payload) = winpe::classify(source_path, extension, file_name) {
        return payload;
    }
    if let Some(payload) = linux_iso::classify(source_path, extension, file_name) {
        return payload;
    }
    unsupported_payload(source_path)
}

/// The unsupported payload for a path.
pub fn unsupported_payload(source_path: &str) -> (p: PayloadSpec)
    ensures
        p@ == unsupported_payload_view(source_path@),
{
    let notes = vec![
        "Only supported Linux ISO profiles and WinPE WIM payloads are accepted in v1.".to_owned(),
    ];
    let p = PayloadSpec {
        source_path: source_path.to_owned(),
        kind: PayloadKind::Unsupported,
        display_name: "Unsupported payload".to_owned(),
        profile: "unsupported".to_owned(),
        supported: false,
        notes,
    };
    assert(p@.notes =~= unsupported_payload_view(source_path@).notes);
    p
}

// ---------------------------------------------------------------------
// Plans
// ---------------------------------------------------------------------

/// The flag every plan carries: changes are additive only.
pub open spec fn additive_only_flag() -> RiskFlagView {
    RiskFlagView {
        code: "additive-only"@,
        level: RiskLevel::Info,
        message: "PartBooter will only add a boot entry and will not replace the current default path."@,
    }
}

/// The flag for a host with BitLocker-protected volumes.
pub open spec fn bitlocker_flag() -> RiskFlagView {
    RiskFlagView {
        code: "bitlocker-detected"@,
        level: RiskLevel::Warning,
        message: "BitLocker-protected volumes were detected; review suspension and recovery requirements before apply."@,
    }
}

/// The flag for Secure Boot with a Linux ISO payload.
pub open spec fn secure_boot_flag() -> RiskFlagView {
    RiskFlagView {
        code: "secure-boot-review"@,
        level: RiskLevel::Warning,
        message: "Secure Boot remains enabled; Linux ISO compatibility must be validated per supported profile."@,
    }
}

/// The flag for the probe warning at position `i` (numbered from 1).
pub open spec fn warning_flag(i: int, warning: Seq<char>) -> RiskFlagView {
    RiskFlagView {
        code: "probe-warning-"@ + decimal_spec((i + 1) as nat),
        level: RiskLevel::Warning,
        message: warning,
    }
}

/// One flag per probe warning, in order.
pub open spec fn warning_flags(warnings: Seq<Seq<char>>) -> Seq<RiskFlagView> {
    Seq::new(warnings.len(), |i: int| warning_flag(i, warnings[i]))
}

/// The risk flags of a plan: additive-only first, BitLocker when it was
/// detected, one per probe warning, and Secure Boot review last when a
/// Linux ISO meets Secure Boot.
pub open spec fn risk_flags_spec(probe: MachineProbeView, kind: PayloadKind) -> Seq<RiskFlagView> {
    seq![additive_only_flag()] + (if probe.bitlocker_detected {
        seq![bitlocker_flag()]
    } else {
        Seq::<RiskFlagView>::empty()
    }) + warning_flags(probe.warnings) + (if probe.secure_boot_enabled && kind
        == PayloadKind::LinuxIso {
        seq![secure_boot_flag()]
    } else {
        Seq::<RiskFlagView>::empty()
    })
}

/// What the loader step of a plan does for a payload kind.
pub open spec fn loader_step_description(kind: PayloadKind) -> Seq<char> {
    match kind {
        PayloadKind::LinuxIso => "Generate Linux ISO loader configuration for the supported distro profile."@,
        PayloadKind::WinPe => "Generate WinPE loader configuration for the staged WIM payload."@,
        PayloadKind::Unsupported => "Unsupported payloads cannot generate a loader configuration."@,
    }
}

/// The six steps of every plan: back up the ESP, snapshot the boot
/// configuration, stage the payload, write its loader configuration,
/// register the additive entry, verify.
pub open spec fn plan_steps_spec(source_path: Seq<char>, kind: PayloadKind) -> Seq<PlanStepView> {
    seq![
        PlanStepView {
            id: 1,
            kind: PlanStepKind::BackupEsp,
            requires_elevation: true,
            description: "Backup the current EFI System Partition contents into the PartBooter backup root."@,
        },
        PlanStepView {
            id: 2,
            kind: PlanStepKind::SnapshotBootConfig,
            requires_elevation: true,
            description: "Snapshot the current Windows boot configuration before staging any managed files."@,
        },
        PlanStepView {
            id: 3,
            kind: PlanStepKind::StagePayload,
            requires_elevation: true,
            description: "Stage payload artifacts from "@ + source_path
                + " into the managed PartBooter directory."@,
        },
        PlanStepView {
            id: 4,
            kind: PlanStepKind::WriteLoaderConfig,
            requires_elevation: true,
            description: loader_step_description(kind),
        },
        PlanStepView {
            id: 5,
            kind: PlanStepKind::RegisterBootEntry,
            requires_elevation: true,
            description: "Register a new additive boot entry without changing the existing default boot target."@,
        },
        PlanStepView {
            id: 6,
            kind: PlanStepKind::VerifyBootEntry,
            requires_elevation: false,
            description: "Verify that staged files, backup manifest, and the additive boot entry are present."@,
        },
    ]
}

/// The plan for a probed host and an inspected payload, or why there is
/// none: the host check comes first, then the payload check.
pub open spec fn plan_spec(
    probe: MachineProbeView,
    payload: PayloadSpecView,
    target_volume: Seq<char>,
    plan_id: Seq<char>,
    backup_root: Seq<char>,
    created_at: Seq<char>,
) -> Result<ExecutionPlanView, (AppErrorKind, Seq<char>)> {
    match probe_check(probe) {
        Some(m) => Err((AppErrorKind::UnsupportedEnvironment, m)),
        None => match payload_check(payload) {
            Some(m) => Err((AppErrorKind::Validation, m)),
            None => Ok(
                ExecutionPlanView {
                    version: 1,
                    plan_id,
                    target_volume,
                    payload,
                    backup_root,
                    replace_default_boot_path: false,
                    risk_flags: risk_flags_spec(probe, payload.kind),
                    steps: plan_steps_spec(payload.source_path, payload.kind),
                    created_at,
                },
            ),
        },
    }
}

fn flag(code: String, level: RiskLevel, message: &str) -> (f: RiskFlag)
    ensures
        f@ == (RiskFlagView { code: code@, level, message: message@ }),
{
    RiskFlag { code, level, message: message.to_owned() }
}

/// The risk flags of a plan.
pub fn risk_flags_for(probe: &MachineProbe, kind: PayloadKind) -> (flags: Vec<RiskFlag>)
    ensures
        risk_views(flags@) == risk_flags_spec(probe@, kind),
{
    let mut flags: Vec<RiskFlag> = Vec::new();
    flags.push(
        flag(
            "additive-only".to_owned(),
            RiskLevel::Info,
            "PartBooter will only add a boot entry and will not replace the current default path.",
        ),
    );
    if probe.bitlocker_detected {
        flags.push(
            flag(
                "bitlocker-detected".to_owned(),
                RiskLevel::Warning,
                "BitLocker-protected volumes were detected; review suspension and recovery requirements before apply.",
            ),
        );
    }
    let ghost head = risk_views(flags@);
    let ghost ws = views(probe.warnings@);
    let mut i: usize = 0;
    while i < probe.warnings.len()
        invariant
            i <= probe.warnings@.len(),
            ws == views(probe.warnings@),
            risk_views(flags@) =~= head + warning_flags(ws).take(i as int),
        decreases probe.warnings@.len() - i,
    {
        let mut code = "probe-warning-".to_owned();
        push_decimal(&mut code, (i + 1) as u64);
        let f = flag(code, RiskLevel::Warning, probe.warnings[i].as_str());
        let ghost before = flags@;
        flags.push(f);
        proof {
            assert(risk_views(flags@) =~= risk_views(before).push(f@));
            assert(warning_flags(ws).take(i + 1) =~= warning_flags(ws).take(i as int).push(
                warning_flag(i as int, ws[i as int]),
            ));
        }
        i += 1;
    }
    proof {
        assert(warning_flags(ws).take(ws.len() as int) =~= warning_flags(ws));
    }
    if probe.secure_boot_enabled && kind == PayloadKind::LinuxIso {
        let ghost before = flags@;
        flags.push(
            flag(
                "secure-boot-review".to_owned(),
                RiskLevel::Warning,
                "Secure Boot remains enabled; Linux ISO compatibility must be validated per supported profile.",
            ),
        );
        proof {
            assert(risk_views(flags@) =~= risk_views(before).push(secure_boot_flag()));
        }
    }
    assert(risk_views(flags@) =~= risk_flags_spec(probe@, kind));
    flags
}

fn step(id: u8, kind: PlanStepKind, requires_elevation: bool, description: String) -> (s: PlanStep)
    ensures
        s@ == (PlanStepView { id, kind, requires_elevation, description: description@ }),
{
    PlanStep { id, kind, requires_elevation, description }
}

/// The steps of a plan for a payload.
pub fn plan_steps_for(source_path: &str, kind: PayloadKind) -> (steps: Vec<PlanStep>)
    ensures
        step_views(steps@) == plan_steps_spec(source_path@, kind),
{
    let loader = match kind {
        PayloadKind::LinuxIso => "Generate Linux ISO loader configuration for the supported distro profile.",
        PayloadKind::WinPe => "Generate WinPE loader configuration for the staged WIM payload.",
        PayloadKind::Unsupported => "Unsupported payloads cannot generate a loader configuration.",
    };
    let mut stage = "Stage payload artifacts from ".to_owned();
    push_str(&mut stage, source_path);
    push_str(&mut stage, " into the managed PartBooter directory.");
    let steps = vec![
        step(
            1,
            PlanStepKind::BackupEsp,
            true,
            "Backup the current EFI System Partition contents into the PartBooter backup root.".to_owned(),
        ),
        step(
            2,
            PlanStepKind::SnapshotBootConfig,
            true,
            "Snapshot the current Windows boot configuration before staging any managed files.".to_owned(),
        ),
        step(3, PlanStepKind::StagePayload, true, stage),
        step(4, PlanStepKind::WriteLoaderConfig, true, loader.to_owned()),
        step(
            5,
            PlanStepKind::RegisterBootEntry,
            true,
            "Register a new additive boot entry without changing the existing default boot target.".to_owned(),
        ),
        step(
            6,
            PlanStepKind::VerifyBootEntry,
            false,
            "Verify that staged files, backup manifest, and the additive boot entry are present.".to_owned(),
        ),
    ];
    assert(step_views(steps@) =~= plan_steps_spec(source_path@, kind));
    steps
}

/// The plan for a probed host and an inspected payload, with the
/// identifiers, backup root and creation time already chosen; the host is
/// checked first, then the payload.
pub fn plan_for(
    probe: &MachineProbe,
    payload: PayloadSpec,
    target_volume: &str,
    plan_id: String,
    backup_root: String,
    created_at: String,
) -> (r: Result<ExecutionPlan, AppError>)
    ensures
        error_outcome(
            r,
            plan_spec(probe@, payload@, target_volume@, plan_id@, backup_root@, created_at@),
        ),
{
    validate_probe(probe)?;
    validate_payload(&payload)?;
    let risk_flags = risk_flags_for(probe, payload.kind);
    let steps = plan_steps_for(payload.source_path.as_str(), payload.kind);
    Ok(
        ExecutionPlan {
            version: 1,
            plan_id,
            target_volume: target_volume.to_owned(),
            payload,
            backup_root,
            additive_policy: AdditiveBootPolicy { replace_default_boot_path: false },
            risk_flags,
            steps,
            created_at,
        },
    )
}

// ---------------------------------------------------------------------
// Identifiers
// ---------------------------------------------------------------------

/// The plan identifier for a clock reading in seconds.
pub open spec fn plan_id_spec(now: u64) -> Seq<char> {
    "plan-"@ + decimal_spec(now as nat)
}

/// The operation identifier for a clock reading in seconds.
pub open spec fn operation_id_spec(now: u64) -> Seq<char> {
    "op-"@ + decimal_spec(now as nat)
}

/// The creation stamp for a clock reading in seconds.
pub open spec fn timestamp_spec(now: u64) -> Seq<char> {
    decimal_spec(now as nat) + "Z"@
}

pub fn plan_id_for(now: u64) -> (r: String)
    ensures
        r@ == plan_id_spec(now),
{
    let mut r = "plan-".to_owned();
    push_decimal(&mut r, now);
    r
}

pub fn operation_id_for(now: u64) -> (r: String)
    ensures
        r@ == operation_id_spec(now),
{
    let mut r = "op-".to_owned();
    push_decimal(&mut r, now);
    r
}

pub fn timestamp_for(now: u64) -> (r: String)
    ensures
        r@ == timestamp_spec(now),
{
    let mut r = String::new();
    push_decimal(&mut r, now);
    push_str(&mut r, "Z");
    assert(r@ =~= timestamp_spec(now));
    r
}

/// A name made of a fixed plain prefix and a decimal numeral is a plain
/// path component.
proof fn lemma_numbered_plain(prefix: Seq<char>, n: nat)
    requires
        prefix.len() > 0,
        'a' <= prefix[0] <= 'z',
        forall|i: int| 0 <= i < prefix.len() ==> 'a' <= #[trigger] prefix[i] <= 'z' || prefix[i] == '-',
    ensures
        plain_component(prefix + decimal_spec(n)),
{
    lemma_decimal_digits(n);
    let s = prefix + decimal_spec(n);
    assert(s[0] == prefix[0]);
    assert forall|i: int| 0 <= i < s.len() implies #[trigger] s[i] != '/' && s[i] != '\\' && s[i]
        != ':' && s[i] != '?' by {
        if i < prefix.len() {
            assert(s[i] == prefix[i]);
        } else {
            assert(s[i] == decimal_spec(n)[i - prefix.len()]);
            assert(crate::text::is_digit(decimal_spec(n)[i - prefix.len()]));
        }
    }
}

/// Plan and operation identifiers are plain path components, so the
/// journal store can place their directories.
pub proof fn identifiers_are_plain(now: u64)
    ensures
        plain_component(plan_id_spec(now)),
        plain_component(operation_id_spec(now)),
{
    reveal_strlit("plan-");
    reveal_strlit("op-");
    lemma_numbered_plain("plan-"@, now as nat);
    lemma_numbered_plain("op-"@, now as nat);
}

/// Identifiers taken at different clock readings differ, and a plan
/// identifier never equals an operation identifier.
pub proof fn identifiers_are_distinct(a: u64, b: u64)
    ensures
        a != b ==> plan_id_spec(a) != plan_id_spec(b),
        a != b ==> operation_id_spec(a) != operation_id_spec(b),
        plan_id_spec(a) != operation_id_spec(b),
{
    reveal_strlit("plan-");
    reveal_strlit("op-");
    lemma_decimal_injective(a as nat, b as nat);
    if plan_id_spec(a) == plan_id_spec(b) {
        assert(decimal_spec(a as nat) =~= plan_id_spec(a).subrange(5, plan_id_spec(a).len() as int));
        assert(decimal_spec(b as nat) =~= plan_id_spec(b).subrange(5, plan_id_spec(b).len() as int));
    }
    if operation_id_spec(a) == operation_id_spec(b) {
        assert(decimal_spec(a as nat) =~= operation_id_spec(a).subrange(
            3,
            operation_id_spec(a).len() as int,
        ));
        assert(decimal_spec(b as nat) =~= operation_id_spec(b).subrange(
            3,
            operation_id_spec(b).len() as int,
        ));
    }
    assert(plan_id_spec(a)[0] == 'p');
    assert(operation_id_spec(b)[0] == 'o');
}

// ---------------------------------------------------------------------
// The service
// ---------------------------------------------------------------------

/// The lifecycle service over a journal store.
pub struct PartBooterService {
    journal_store: FileJournalStore,
}

impl PartBooterService {
    /// The state root of the service's journal store.
    pub closed spec fn state_root(&self) -> Seq<char> {
        self.journal_store.root_view()
    }

    pub fn new(state_root: &str) -> (s: Self)
        ensures
            s.state_root() == state_root@,
    {
        PartBooterService { journal_store: FileJournalStore::new(state_root) }
    }

    /// The journal store the service records operations in.
    pub fn journal_store(&self) -> (j: &FileJournalStore)
        ensures
            j.root_view() == self.state_root(),
    {
        &self.journal_store
    }

    /// Classifies a payload: as WinPE if that handler accepts it, else as a
    /// Linux ISO if that handler does, else as unsupported.
    pub fn inspect_payload(&self, source_path: &str) -> (p: PayloadSpec)
        ensures
            inspected(source_path@, p@),
            inspected_by_extension(source_path@, p@),
            p@.source_path == source_path@,
    {
        let extension = path_extension(source_path);
        let file_name = path_file_name(source_path);
        let p = match (&extension, &file_name) {
            (Some(e), Some(n)) => classify_payload(source_path, Some(e.as_str()), Some(n.as_str())),
            (Some(e), None) => classify_payload(source_path, Some(e.as_str()), None),
            (None, Some(n)) => classify_payload(source_path, None, Some(n.as_str())),
            (None, None) => classify_payload(source_path, None, None),
        };
        proof {
            let e = opt_view(extension);
            let n = opt_view(file_name);
            assert(path_parts_fit(source_path@, e, n));
            assert(payload_for(source_path@, e, n) == p@);
            inspection_follows_the_extension(source_path@, p@);
        }
        p
    }

    /// The plan for staging the payload at `source_path` on `target_volume`
    /// of a host with the given probe, made at clock reading `now`
    /// (seconds since the Unix epoch). Its backup root is the plan's
    /// directory in the journal store's backups.
    pub fn build_plan(&self, probe: &MachineProbe, source_path: &str, target_volume: &str, now: u64) -> (r:
        Result<ExecutionPlan, AppError>)
        ensures
            exists|payload: PayloadSpecView, backup_root: Seq<char>|
                #![trigger plan_spec(probe@, payload, target_volume@, plan_id_spec(now), backup_root, timestamp_spec(now))]
                {
                    &&& inspected(source_path@, payload)
                    &&& inspected_by_extension(source_path@, payload)
                    &&& ordinary_path(self.state_root()) ==> joined_twice(
                        self.state_root(),
                        "backups"@,
                        plan_id_spec(now),
                        backup_root,
                    )
                    &&& error_outcome(
                        r,
                        plan_spec(
                            probe@,
                            payload,
                            target_volume@,
                            plan_id_spec(now),
                            backup_root,
                            timestamp_spec(now),
                        ),
                    )
                },
    {
        let payload = self.inspect_payload(source_path);
        let plan_id = plan_id_for(now);
        proof {
            identifiers_are_plain(now);
        }
        let backup_root = self.journal_store.backup_root_for_plan(plan_id.as_str());
        let created_at = timestamp_for(now);
        let ghost pv = payload@;
        let ghost bv = backup_root@;
        let r = plan_for(probe, payload, target_volume, plan_id, backup_root, created_at);
        proof {
            assert(plan_spec(probe@, pv, target_volume@, plan_id_spec(now), bv, timestamp_spec(now))
                == plan_spec(probe@, pv, target_volume@, plan_id_spec(now), bv, timestamp_spec(now)));
        }
        r
    }
}


// ---------------------------------------------------------------------
// Operation records
// ---------------------------------------------------------------------

/// The record of a plan step after the backup checkpoint: the two backup
/// steps completed, every other step skipped.
pub open spec fn checkpoint_record_spec(
    step: PlanStepView,
    esp_backup_dir: Seq<char>,
    bcd_store_path: Seq<char>,
) -> OperationStepRecordView {
    match step.kind {
        PlanStepKind::BackupEsp => OperationStepRecordView {
            step_id: step.id,
            kind: step.kind,
            outcome: ActionOutcome::Completed,
            detail: "Backed up the EFI System Partition to "@ + esp_backup_dir + "."@,
        },
        PlanStepKind::SnapshotBootConfig => OperationStepRecordView {
            step_id: step.id,
            kind: step.kind,
            outcome: ActionOutcome::Completed,
            detail: "Exported the Windows boot configuration to "@ + bcd_store_path + "."@,
        },
        _ => OperationStepRecordView {
            step_id: step.id,
            kind: step.kind,
            outcome: ActionOutcome::Skipped,
            detail: "Execution beyond backup checkpointing is not implemented in this milestone."@,
        },
    }
}

/// The record of a plan step after a WinPE payload was staged, registered
/// and verified: every step completed, each with what it did.
pub open spec fn winpe_record_spec(
    step: PlanStepView,
    esp_backup_dir: Seq<char>,
    bcd_store_path: Seq<char>,
    stage_root: Seq<char>,
    loader_spec_path: Seq<char>,
    entry_id: Seq<char>,
    entry_display_name: Seq<char>,
) -> OperationStepRecordView {
    match step.kind {
        PlanStepKind::BackupEsp | PlanStepKind::SnapshotBootConfig => checkpoint_record_spec(
            step,
            esp_backup_dir,
            bcd_store_path,
        ),
        PlanStepKind::StagePayload => OperationStepRecordView {
            step_id: step.id,
            kind: step.kind,
            outcome: ActionOutcome::Completed,
            detail: "Staged WinPE artifacts into "@ + stage_root + "."@,
        },
        PlanStepKind::WriteLoaderConfig => OperationStepRecordView {
            step_id: step.id,
            kind: step.kind,
            outcome: ActionOutcome::Completed,
            detail: "Wrote WinPE loader settings to "@ + loader_spec_path + "."@,
        },
        PlanStepKind::RegisterBootEntry => OperationStepRecordView {
            step_id: step.id,
            kind: step.kind,
            outcome: ActionOutcome::Completed,
            detail: "Registered additive WinPE boot entry "@ + entry_id + " ("@ + entry_display_name
                + ")"@,
        },
        PlanStepKind::VerifyBootEntry => OperationStepRecordView {
            step_id: step.id,
            kind: step.kind,
            outcome: ActionOutcome::Completed,
            detail: "Verified managed WinPE files and BCD entry registration."@,
        },
    }
}

fn record(step_id: u8, kind: PlanStepKind, outcome: ActionOutcome, detail: String) -> (r:
    OperationStepRecord)
    ensures
        r@ == (OperationStepRecordView { step_id, kind, outcome, detail: detail@ }),
{
    OperationStepRecord { step_id, kind, outcome, detail }
}

fn sentence(prefix: &str, middle: &str) -> (r: String)
    ensures
        r@ == prefix@ + middle@ + "."@,
{
    let mut r = prefix.to_owned();
    push_str(&mut r, middle);
    push_str(&mut r, ".");
    r
}

/// The record of a plan step after the backup checkpoint.
pub fn checkpoint_step_record(step: &PlanStep, checkpoint: &BackupCheckpoint) -> (r:
    OperationStepRecord)
    ensures
        r@ == checkpoint_record_spec(
            step@,
            checkpoint.esp_backup_dir@,
            checkpoint.bcd_store_path@,
        ),
{
    match step.kind {
        PlanStepKind::BackupEsp => record(
            step.id,
            step.kind,
            ActionOutcome::Completed,
            sentence(
                "Backed up the EFI System Partition to ",
                checkpoint.esp_backup_dir.as_str(),
            ),
        ),
        PlanStepKind::SnapshotBootConfig => record(
            step.id,
            step.kind,
            ActionOutcome::Completed,
            sentence(
                "Exported the Windows boot configuration to ",
                checkpoint.bcd_store_path.as_str(),
            ),
        ),
        _ => record(
            step.id,
            step.kind,
            ActionOutcome::Skipped,
            "Execution beyond backup checkpointing is not implemented in this milestone.".to_owned(),
        ),
    }
}

/// The record of a plan step after a WinPE payload was applied.
pub fn winpe_step_record(
    step: &PlanStep,
    checkpoint: &BackupCheckpoint,
    staging: &WinPeStaging,
    registration: &BootEntryRegistration,
    loader_spec_path: &str,
) -> (r: OperationStepRecord)
    ensures
        r@ == winpe_record_spec(
            step@,
            checkpoint.esp_backup_dir@,
            checkpoint.bcd_store_path@,
            staging.stage_root@,
            loader_spec_path@,
            registration.entry_id@,
            registration.display_name@,
        ),
{
    match step.kind {
        PlanStepKind::BackupEsp | PlanStepKind::SnapshotBootConfig => checkpoint_step_record(
            step,
            checkpoint,
        ),
        PlanStepKind::StagePayload => record(
            step.id,
            step.kind,
            ActionOutcome::Completed,
            sentence("Staged WinPE artifacts into ", staging.stage_root.as_str()),
        ),
        PlanStepKind::WriteLoaderConfig => record(
            step.id,
            step.kind,
            ActionOutcome::Completed,
            sentence("Wrote WinPE loader settings to ", loader_spec_path),
        ),
        PlanStepKind::RegisterBootEntry => {
            let mut detail = "Registered additive WinPE boot entry ".to_owned();
            push_str(&mut detail, registration.entry_id.as_str());
            push_str(&mut detail, " (");
            push_str(&mut detail, registration.display_name.as_str());
            push_str(&mut detail, ")");
            record(step.id, step.kind, ActionOutcome::Completed, detail)
        },
        PlanStepKind::VerifyBootEntry => record(
            step.id,
            step.kind,
            ActionOutcome::Completed,
            "Verified managed WinPE files and BCD entry registration.".to_owned(),
        ),
    }
}

/// The journal of an operation that stopped after the backup checkpoint.
pub open spec fn checkpoint_journal_spec(
    plan: ExecutionPlanView,
    operation_id: Seq<char>,
    esp_backup_dir: Seq<char>,
    bcd_store_path: Seq<char>,
) -> OperationJournalView {
    OperationJournalView {
        operation_id,
        plan_id: plan.plan_id,
        backup_root: plan.backup_root,
        status: OperationStatus::Checkpointed,
        steps: plan.steps.map_values(
            |s: PlanStepView| checkpoint_record_spec(s, esp_backup_dir, bcd_store_path),
        ),
        summary: "Created a protected backup checkpoint for "@ + plan.payload.display_name
            + " on target volume "@ + plan.target_volume
            + "; payload staging and boot registration remain pending."@,
    }
}

/// The journal of an operation whose WinPE payload was staged, registered
/// and verified.
pub open spec fn winpe_journal_spec(
    plan: ExecutionPlanView,
    operation_id: Seq<char>,
    esp_backup_dir: Seq<char>,
    bcd_store_path: Seq<char>,
    stage_root: Seq<char>,
    loader_spec_path: Seq<char>,
    entry_id: Seq<char>,
    entry_display_name: Seq<char>,
) -> OperationJournalView {
    OperationJournalView {
        operation_id,
        plan_id: plan.plan_id,
        backup_root: plan.backup_root,
        status: OperationStatus::Applied,
        steps: plan.steps.map_values(
            |s: PlanStepView|
                winpe_record_spec(
                    s,
                    esp_backup_dir,
                    bcd_store_path,
                    stage_root,
                    loader_spec_path,
                    entry_id,
                    entry_display_name,
                ),
        ),
        summary: "Applied WinPE staging and additive boot entry for "@ + plan.payload.display_name
            + " on target volume "@ + plan.target_volume + "."@,
    }
}

/// The journal of an operation that stopped after the backup checkpoint.
pub fn checkpoint_journal(plan: &ExecutionPlan, operation_id: &str, checkpoint: &BackupCheckpoint) -> (j:
    OperationJournal)
    ensures
        j@ == checkpoint_journal_spec(
            plan@,
            operation_id@,
            checkpoint.esp_backup_dir@,
            checkpoint.bcd_store_path@,
        ),
{
    let ghost esp = checkpoint.esp_backup_dir@;
    let ghost bcd = checkpoint.bcd_store_path@;
    let ghost plan_steps = step_views(plan.steps@);
    let mut steps: Vec<OperationStepRecord> = Vec::new();
    let mut i: usize = 0;
    while i < plan.steps.len()
        invariant
            i <= plan.steps@.len(),
            plan_steps == step_views(plan.steps@),
            esp == checkpoint.esp_backup_dir@,
            bcd == checkpoint.bcd_store_path@,
            record_views(steps@) =~= plan_steps.take(i as int).map_values(
                |s: PlanStepView| checkpoint_record_spec(s, esp, bcd),
            ),
        decreases plan.steps@.len() - i,
    {
        let r = checkpoint_step_record(&plan.steps[i], checkpoint);
        let ghost before = steps@;
        steps.push(r);
        proof {
            assert(record_views(steps@) =~= record_views(before).push(r@));
            assert(plan_steps.take(i + 1).map_values(
                |s: PlanStepView| checkpoint_record_spec(s, esp, bcd),
            ) =~= plan_steps.take(i as int).map_values(
                |s: PlanStepView| checkpoint_record_spec(s, esp, bcd),
            ).push(checkpoint_record_spec(plan_steps[i as int], esp, bcd)));
        }
        i += 1;
    }
    proof {
        assert(plan_steps.take(plan.steps@.len() as int) =~= plan_steps);
    }
    let mut summary = "Created a protected backup checkpoint for ".to_owned();
    push_str(&mut summary, plan.payload.display_name.as_str());
    push_str(&mut summary, " on target volume ");
    push_str(&mut summary, plan.target_volume.as_str());
    push_str(&mut summary, "; payload staging and boot registration remain pending.");
    OperationJournal {
        operation_id: operation_id.to_owned(),
        plan_id: plan.plan_id.clone(),
        backup_root: plan.backup_root.clone(),
        status: OperationStatus::Checkpointed,
        steps,
        summary,
    }
}

/// The journal of an operation whose WinPE payload was staged, registered
/// and verified.
pub fn winpe_journal(
    plan: &ExecutionPlan,
    operation_id: &str,
    checkpoint: &BackupCheckpoint,
    staging: &WinPeStaging,
    registration: &BootEntryRegistration,
    loader_spec_path: &str,
) -> (j: OperationJournal)
    ensures
        j@ == winpe_journal_spec(
            plan@,
            operation_id@,
            checkpoint.esp_backup_dir@,
            checkpoint.bcd_store_path@,
            staging.stage_root@,
            loader_spec_path@,
            registration.entry_id@,
            registration.display_name@,
        ),
{
    let ghost esp = checkpoint.esp_backup_dir@;
    let ghost bcd = checkpoint.bcd_store_path@;
    let ghost stage = staging.stage_root@;
    let ghost loader = loader_spec_path@;
    let ghost entry = registration.entry_id@;
    let ghost shown = registration.display_name@;
    let ghost plan_steps = step_views(plan.steps@);
    let mut steps: Vec<OperationStepRecord> = Vec::new();
    let mut i: usize = 0;
    while i < plan.steps.len()
        invariant
            i <= plan.steps@.len(),
            plan_steps == step_views(plan.steps@),
            esp == checkpoint.esp_backup_dir@,
            bcd == checkpoint.bcd_store_path@,
            stage == staging.stage_root@,
            loader == loader_spec_path@,
            entry == registration.entry_id@,
            shown == registration.display_name@,
            record_views(steps@) =~= plan_steps.take(i as int).map_values(
                |s: PlanStepView| winpe_record_spec(s, esp, bcd, stage, loader, entry, shown),
            ),
        decreases plan.steps@.len() - i,
    {
        let r = winpe_step_record(
            &plan.steps[i],
            checkpoint,
            staging,
            registration,
            loader_spec_path,
        );
        let ghost before = steps@;
        steps.push(r);
        proof {
            assert(record_views(steps@) =~= record_views(before).push(r@));
            assert(plan_steps.take(i + 1).map_values(
                |s: PlanStepView| winpe_record_spec(s, esp, bcd, stage, loader, entry, shown),
            ) =~= plan_steps.take(i as int).map_values(
                |s: PlanStepView| winpe_record_spec(s, esp, bcd, stage, loader, entry, shown),
            ).push(winpe_record_spec(plan_steps[i as int], esp, bcd, stage, loader, entry, shown)));
        }
        i += 1;
    }
    proof {
        assert(plan_steps.take(plan.steps@.len() as int) =~= plan_steps);
    }
    let mut summary = "Applied WinPE staging and additive boot entry for ".to_owned();
    push_str(&mut summary, plan.payload.display_name.as_str());
    push_str(&mut summary, " on target volume ");
    push_str(&mut summary, plan.target_volume.as_str());
    push_str(&mut summary, ".");
    OperationJournal {
        operation_id: operation_id.to_owned(),
        plan_id: plan.plan_id.clone(),
        backup_root: plan.backup_root.clone(),
        status: OperationStatus::Applied,
        steps,
        summary,
    }
}


// ---------------------------------------------------------------------
// WinPE artifacts
// ---------------------------------------------------------------------

/// The name a managed WinPE boot entry is shown under.
pub open spec fn entry_display_name_spec(display_name: Seq<char>) -> Seq<char> {
    "PartBooter "@ + display_name
}

pub fn entry_display_name(display_name: &str) -> (r: String)
    ensures
        r@ == entry_display_name_spec(display_name@),
{
    let mut r = "PartBooter ".to_owned();
    push_str(&mut r, display_name);
    r
}

/// The lines of the loader settings written for a staged WinPE payload.
pub open spec fn loader_spec_lines(
    display_name: Seq<char>,
    entry_id: Seq<char>,
    target_volume: Seq<char>,
    boot_wim_path: Seq<char>,
    boot_sdi_path: Seq<char>,
    boot_sdi_relative_path: Seq<char>,
) -> Seq<Seq<char>> {
    seq![
        "PARTBOOTER_WINPE_LOADER_V1"@,
        "display_name="@ + display_name,
        "entry_id="@ + entry_id,
        "target_volume="@ + target_volume,
        "boot_wim_path="@ + boot_wim_path,
        "boot_sdi_path="@ + boot_sdi_path,
        "boot_sdi_relative_path="@ + boot_sdi_relative_path,
        "path=\\Windows\\System32\\winload.efi"@,
        "systemroot=\\Windows"@,
        "winpe=yes"@,
        "detecthal=yes"@,
        "nx=OptIn"@,
    ]
}

fn keyed(key: &str, value: &str) -> (r: String)
    ensures
        r@ == key@ + value@,
{
    let mut r = key.to_owned();
    push_str(&mut r, value);
    r
}

/// The loader settings text for a staged and registered WinPE payload,
/// one setting per line.
pub fn winpe_loader_spec_text(
    staging: &WinPeStaging,
    registration: &BootEntryRegistration,
    display_name: &str,
) -> (r: String)
    ensures
        r@ == join_spec(
            loader_spec_lines(
                display_name@,
                registration.entry_id@,
                staging.target_volume@,
                staging.boot_wim_path@,
                staging.boot_sdi_path@,
                staging.boot_sdi_relative_path@,
            ),
            "\n"@,
        ),
{
    let lines = vec![
        "PARTBOOTER_WINPE_LOADER_V1".to_owned(),
        keyed("display_name=", display_name),
        keyed("entry_id=", registration.entry_id.as_str()),
        keyed("target_volume=", staging.target_volume.as_str()),
        keyed("boot_wim_path=", staging.boot_wim_path.as_str()),
        keyed("boot_sdi_path=", staging.boot_sdi_path.as_str()),
        keyed("boot_sdi_relative_path=", staging.boot_sdi_relative_path.as_str()),
        "path=\\Windows\\System32\\winload.efi".to_owned(),
        "systemroot=\\Windows".to_owned(),
        "winpe=yes".to_owned(),
        "detecthal=yes".to_owned(),
        "nx=OptIn".to_owned(),
    ];
    assert(views(lines@) =~= loader_spec_lines(
        display_name@,
        registration.entry_id@,
        staging.target_volume@,
        staging.boot_wim_path@,
        staging.boot_sdi_path@,
        staging.boot_sdi_relative_path@,
    ));
    join_strings(lines.as_slice(), "\n")
}

/// The error for a registered entry that could not be verified.
pub fn unverified_entry_error(entry_id: &str) -> (e: AppError)
    ensures
        e.is(
            AppErrorKind::Verification,
            "managed WinPE BCD entry "@ + entry_id@ + " could not be verified after registration"@,
        ),
{
    let mut m = "managed WinPE BCD entry ".to_owned();
    push_str(&mut m, entry_id);
    push_str(&mut m, " could not be verified after registration");
    AppError::new(AppErrorKind::Verification, m)
}

/// The names of the files that record a WinPE operation's artifacts in its
/// operation directory, with the loader settings last.
pub open spec fn metadata_file_names_spec() -> Seq<Seq<char>> {
    seq![
        "entry-id.txt"@,
        "staging-root.txt"@,
        "esp-staging-root.txt"@,
        "boot-wim-path.txt"@,
        "boot-sdi-path.txt"@,
        "loader-spec-path.txt"@,
        "loader-spec.txt"@,
    ]
}

pub fn metadata_file_names() -> (names: [&'static str; 7])
    ensures
        names@.map_values(|n: &str| n@) == metadata_file_names_spec(),
{
    let names = [
        "entry-id.txt",
        "staging-root.txt",
        "esp-staging-root.txt",
        "boot-wim-path.txt",
        "boot-sdi-path.txt",
        "loader-spec-path.txt",
        "loader-spec.txt",
    ];
    assert(names@.map_values(|n: &str| n@) =~= metadata_file_names_spec());
    names
}

/// What the operation directory records of an applied WinPE payload.
pub struct WinPeOperationMetadata {
    pub entry_id: String,
    pub stage_root: String,
    pub esp_stage_root: String,
    pub boot_wim_path: String,
    pub boot_sdi_path: String,
    pub loader_spec_path: String,
}

impl WinPeOperationMetadata {
    /// The metadata from the contents of its files, each trimmed.
    pub fn from_contents(
        entry_id: &str,
        stage_root: &str,
        esp_stage_root: &str,
        boot_wim_path: &str,
        boot_sdi_path: &str,
        loader_spec_path: &str,
    ) -> (m: Self)
        ensures
            m.entry_id@ == trim_spec(entry_id@),
            m.stage_root@ == trim_spec(stage_root@),
            m.esp_stage_root@ == trim_spec(esp_stage_root@),
            m.boot_wim_path@ == trim_spec(boot_wim_path@),
            m.boot_sdi_path@ == trim_spec(boot_sdi_path@),
            m.loader_spec_path@ == trim_spec(loader_spec_path@),
    {
        WinPeOperationMetadata {
            entry_id: trim(entry_id),
            stage_root: trim(stage_root),
            esp_stage_root: trim(esp_stage_root),
            boot_wim_path: trim(boot_wim_path),
            boot_sdi_path: trim(boot_sdi_path),
            loader_spec_path: trim(loader_spec_path),
        }
    }
}

// ---------------------------------------------------------------------
// Verification, rollback and repair
// ---------------------------------------------------------------------

/// The warning for an operation that only reached its checkpoint.
pub open spec fn checkpointed_warning() -> Seq<char> {
    "Operation is checkpointed only; payload staging and boot entry registration are not implemented in this milestone."@
}

/// What the host shows of an applied WinPE payload: whether its staged
/// files (WIM, SDI and loader settings) exist and whether its boot entry
/// is registered.
pub struct WinPeEvidence {
    pub staged_files_present: bool,
    pub entry_registered: bool,
}

/// The report on an operation from its journal, whether its backup
/// artifacts and saved plan exist, and, when the operation recorded WinPE
/// metadata, what the host shows of that payload. Without such metadata an
/// applied or verified journal stands for the staged files and the entry.
pub open spec fn report_spec(
    journal: OperationJournalView,
    backup_artifacts_present: bool,
    operation_plan_present: bool,
    winpe: Option<(bool, bool)>,
) -> VerificationReportView {
    let applied = journal.status == OperationStatus::Applied || journal.status
        == OperationStatus::Verified;
    let staged = match winpe {
        Some(w) => w.0,
        None => applied,
    };
    let registered = match winpe {
        Some(w) => w.1,
        None => applied,
    };
    let full_boot_path_expected = winpe is Some || applied;
    VerificationReportView {
        operation_id: journal.operation_id,
        backup_artifacts_present,
        operation_plan_present,
        boot_entry_registered: registered,
        staged_artifacts_present: staged,
        warnings: (if journal.status == OperationStatus::Checkpointed {
            seq![checkpointed_warning()]
        } else {
            Seq::<Seq<char>>::empty()
        }) + (if journal.status == OperationStatus::Applied && !staged {
            seq!["Managed WinPE staging artifacts are incomplete or missing."@]
        } else {
            Seq::<Seq<char>>::empty()
        }) + (if journal.status == OperationStatus::Applied && !registered {
            seq!["Managed BCD entry is missing or no longer registered."@]
        } else {
            Seq::<Seq<char>>::empty()
        }) + (if !backup_artifacts_present {
            seq!["Backup artifacts are incomplete or missing."@]
        } else {
            Seq::<Seq<char>>::empty()
        }) + (if !operation_plan_present {
            seq!["Saved plan artifact is missing for the operation."@]
        } else {
            Seq::<Seq<char>>::empty()
        }),
        verified: if full_boot_path_expected {
            backup_artifacts_present && operation_plan_present && staged && registered
        } else {
            backup_artifacts_present && operation_plan_present
        },
    }
}

/// The optional evidence as a pair of facts.
pub open spec fn evidence_view(winpe: Option<WinPeEvidence>) -> Option<(bool, bool)> {
    match winpe {
        Some(w) => Some((w.staged_files_present, w.entry_registered)),
        None => None,
    }
}

impl PartBooterService {
    /// The verification report of an operation, from its journal, whether its
    /// backup artifacts (manifest, ESP copy, BCD export) and saved plan exist,
    /// and what the host shows of its WinPE payload when it recorded one.
    pub fn verify_operation(
        &self,
        journal: OperationJournal,
        backup_artifacts_present: bool,
        operation_plan_present: bool,
        winpe: Option<WinPeEvidence>,
    ) -> (r: VerificationReport)
        ensures
            r@ == report_spec(
                journal@,
                backup_artifacts_present,
                operation_plan_present,
                evidence_view(winpe),
            ),
            r.verified ==> r.backup_artifacts_present && r.operation_plan_present,
    {
        let applied = journal.status == OperationStatus::Applied || journal.status
            == OperationStatus::Verified;
        let (staged, registered, has_metadata) = match &winpe {
            Some(w) => (w.staged_files_present, w.entry_registered, true),
            None => (applied, applied, false),
        };
        let full_boot_path_expected = has_metadata || applied;
        let mut warnings: Vec<String> = Vec::new();
        if journal.status == OperationStatus::Checkpointed {
            warnings.push(
                "Operation is checkpointed only; payload staging and boot entry registration are not implemented in this milestone.".to_owned(),
            );
        }
        if journal.status == OperationStatus::Applied && !staged {
            warnings.push("Managed WinPE staging artifacts are incomplete or missing.".to_owned());
        }
        if journal.status == OperationStatus::Applied && !registered {
            warnings.push("Managed BCD entry is missing or no longer registered.".to_owned());
        }
        if !backup_artifacts_present {
            warnings.push("Backup artifacts are incomplete or missing.".to_owned());
        }
        if !operation_plan_present {
            warnings.push("Saved plan artifact is missing for the operation.".to_owned());
        }
        let verified = if full_boot_path_expected {
            backup_artifacts_present && operation_plan_present && staged && registered
        } else {
            backup_artifacts_present && operation_plan_present
        };
        let r = VerificationReport {
            operation_id: journal.operation_id,
            backup_artifacts_present,
            operation_plan_present,
            boot_entry_registered: registered,
            staged_artifacts_present: staged,
            warnings,
            verified,
        };
        assert(r@ =~= report_spec(
            journal@,
            backup_artifacts_present,
            operation_plan_present,
            evidence_view(winpe),
        ));
        r
}

}

/// The warnings a verification report can carry, each distinct.
proof fn lemma_report_warnings_differ()
    ensures
        checkpointed_warning() != "Managed WinPE staging artifacts are incomplete or missing."@,
        checkpointed_warning() != "Managed BCD entry is missing or no longer registered."@,
        "Managed WinPE staging artifacts are incomplete or missing."@
            != "Managed BCD entry is missing or no longer registered."@,
        "Backup artifacts are incomplete or missing."@
            != "Managed WinPE staging artifacts are incomplete or missing."@,
        "Backup artifacts are incomplete or missing."@
            != "Managed BCD entry is missing or no longer registered."@,
        "Saved plan artifact is missing for the operation."@
            != "Managed WinPE staging artifacts are incomplete or missing."@,
        "Saved plan artifact is missing for the operation."@
            != "Managed BCD entry is missing or no longer registered."@,
{
    reveal_strlit(
        "Operation is checkpointed only; payload staging and boot entry registration are not implemented in this milestone.",
    );
    reveal_strlit("Managed WinPE staging artifacts are incomplete or missing.");
    reveal_strlit("Managed BCD entry is missing or no longer registered.");
    reveal_strlit("Backup artifacts are incomplete or missing.");
    reveal_strlit("Saved plan artifact is missing for the operation.");
    assert(checkpointed_warning().len() != "Managed WinPE staging artifacts are incomplete or missing."@.len());
    assert(checkpointed_warning().len() != "Managed BCD entry is missing or no longer registered."@.len());
    assert("Managed WinPE staging artifacts are incomplete or missing."@.len()
        != "Managed BCD entry is missing or no longer registered."@.len());
    assert("Backup artifacts are incomplete or missing."@.len()
        != "Managed WinPE staging artifacts are incomplete or missing."@.len());
    assert("Backup artifacts are incomplete or missing."@.len()
        != "Managed BCD entry is missing or no longer registered."@.len());
    assert("Saved plan artifact is missing for the operation."@.len()
        != "Managed WinPE staging artifacts are incomplete or missing."@.len());
    assert("Saved plan artifact is missing for the operation."@.len()
        != "Managed BCD entry is missing or no longer registered."@.len());
}

/// Which warnings a report carries: each of the five exactly when its
/// condition holds.
proof fn lemma_report_warning_set(
    journal: OperationJournalView,
    backup_artifacts_present: bool,
    operation_plan_present: bool,
    winpe: Option<(bool, bool)>,
)
    ensures
        ({
            let r = report_spec(journal, backup_artifacts_present, operation_plan_present, winpe);
            let applied = journal.status == OperationStatus::Applied;
            &&& r.warnings.contains(checkpointed_warning()) <==> journal.status
                == OperationStatus::Checkpointed
            &&& r.warnings.contains("Managed WinPE staging artifacts are incomplete or missing."@)
                <==> (applied && !r.staged_artifacts_present)
            &&& r.warnings.contains("Managed BCD entry is missing or no longer registered."@)
                <==> (applied && !r.boot_entry_registered)
            &&& r.warnings.contains("Backup artifacts are incomplete or missing."@)
                <==> !backup_artifacts_present
            &&& r.warnings.contains("Saved plan artifact is missing for the operation."@)
                <==> !operation_plan_present
        }),
{
    lemma_report_warnings_differ();
    let r = report_spec(journal, backup_artifacts_present, operation_plan_present, winpe);
    let cw = checkpointed_warning();
    let stage_w = "Managed WinPE staging artifacts are incomplete or missing."@;
    let entry_w = "Managed BCD entry is missing or no longer registered."@;
    let backup_w = "Backup artifacts are incomplete or missing."@;
    let plan_w = "Saved plan artifact is missing for the operation."@;
    let applied = journal.status == OperationStatus::Applied;
    let a: Seq<Seq<char>> = if journal.status == OperationStatus::Checkpointed {
        seq![cw]
    } else {
        Seq::<Seq<char>>::empty()
    };
    let b: Seq<Seq<char>> = if applied && !r.staged_artifacts_present {
        seq![stage_w]
    } else {
        Seq::<Seq<char>>::empty()
    };
    let c: Seq<Seq<char>> = if applied && !r.boot_entry_registered {
        seq![entry_w]
    } else {
        Seq::<Seq<char>>::empty()
    };
    let d: Seq<Seq<char>> = if !backup_artifacts_present {
        seq![backup_w]
    } else {
        Seq::<Seq<char>>::empty()
    };
    let e: Seq<Seq<char>> = if !operation_plan_present {
        seq![plan_w]
    } else {
        Seq::<Seq<char>>::empty()
    };
    let w = a + b + c + d + e;
    assert(r.warnings == w);
    assert forall|x: Seq<char>| w.contains(x) <==> (a.contains(x) || b.contains(x) || c.contains(x)
        || d.contains(x) || e.contains(x)) by {
        if w.contains(x) {
            let i = choose|i: int| 0 <= i < w.len() && w[i] == x;
            if i < a.len() {
                assert(a[i] == x);
            } else if i < a.len() + b.len() {
                assert(b[i - a.len()] == x);
            } else if i < a.len() + b.len() + c.len() {
                assert(c[i - a.len() - b.len()] == x);
            } else if i < a.len() + b.len() + c.len() + d.len() {
                assert(d[i - a.len() - b.len() - c.len()] == x);
            } else {
                assert(e[i - a.len() - b.len() - c.len() - d.len()] == x);
            }
        }
        if a.contains(x) {
            let i = choose|i: int| 0 <= i < a.len() && a[i] == x;
            assert(w[i] == x);
        }
        if b.contains(x) {
            let i = choose|i: int| 0 <= i < b.len() && b[i] == x;
            assert(w[a.len() + i] == x);
        }
        if c.contains(x) {
            let i = choose|i: int| 0 <= i < c.len() && c[i] == x;
            assert(w[a.len() + b.len() + i] == x);
        }
        if d.contains(x) {
            let i = choose|i: int| 0 <= i < d.len() && d[i] == x;
            assert(w[a.len() + b.len() + c.len() + i] == x);
        }
        if e.contains(x) {
            let i = choose|i: int| 0 <= i < e.len() && e[i] == x;
            assert(w[a.len() + b.len() + c.len() + d.len() + i] == x);
        }
    }
    if journal.status == OperationStatus::Checkpointed {
        assert(a[0] == cw);
    }
    if applied && !r.staged_artifacts_present {
        assert(b[0] == stage_w);
    }
    if applied && !r.boot_entry_registered {
        assert(c[0] == entry_w);
    }
    if !backup_artifacts_present {
        assert(d[0] == backup_w);
    }
    if !operation_plan_present {
        assert(e[0] == plan_w);
    }
    assert(cw != backup_w && cw != plan_w && backup_w != plan_w) by {
        reveal_strlit(
            "Operation is checkpointed only; payload staging and boot entry registration are not implemented in this milestone.",
        );
        reveal_strlit("Backup artifacts are incomplete or missing.");
        reveal_strlit("Saved plan artifact is missing for the operation.");
        assert(cw.len() != backup_w.len());
        assert(cw.len() != plan_w.len());
        assert(backup_w.len() != plan_w.len());
    }
}

/// Verifying with WinPE evidence reports that evidence as it is: the
/// staged artifacts are present exactly when the staged files are, the
/// entry is registered exactly when the host shows it; an applied
/// operation is warned about its staging exactly when the files are
/// missing, and about its entry exactly when the entry is; every report
/// warns about missing backup artifacts and a missing saved plan exactly
/// when they are missing; and the operation is verified exactly when the
/// backup, the saved plan, the staged files and the entry are all there.
pub proof fn verification_reports_the_evidence(
    journal: OperationJournalView,
    backup_artifacts_present: bool,
    operation_plan_present: bool,
    staged_files_present: bool,
    entry_registered: bool,
)
    ensures
        ({
            let r = report_spec(
                journal,
                backup_artifacts_present,
                operation_plan_present,
                Some((staged_files_present, entry_registered)),
            );
            let applied = journal.status == OperationStatus::Applied;
            &&& r.operation_id == journal.operation_id
            &&& r.backup_artifacts_present == backup_artifacts_present
            &&& r.operation_plan_present == operation_plan_present
            &&& r.staged_artifacts_present == staged_files_present
            &&& r.boot_entry_registered == entry_registered
            &&& r.warnings.contains("Managed WinPE staging artifacts are incomplete or missing."@)
                <==> (applied && !staged_files_present)
            &&& r.warnings.contains("Managed BCD entry is missing or no longer registered."@)
                <==> (applied && !entry_registered)
            &&& r.warnings.contains("Backup artifacts are incomplete or missing."@)
                <==> !backup_artifacts_present
            &&& r.warnings.contains("Saved plan artifact is missing for the operation."@)
                <==> !operation_plan_present
            &&& r.verified == (backup_artifacts_present && operation_plan_present
                && staged_files_present && entry_registered)
        }),
{
    lemma_report_warning_set(
        journal,
        backup_artifacts_present,
        operation_plan_present,
        Some((staged_files_present, entry_registered)),
    );
}

/// Verifying without WinPE metadata takes an applied or verified journal
/// as standing for its staged files and entry, and nothing else: the
/// report is verified exactly when the backup artifacts and the saved plan
/// exist, never warns about staging or the entry, and warns that the
/// operation is only checkpointed exactly when its journal says so.
pub proof fn verification_without_metadata_trusts_the_journal(
    journal: OperationJournalView,
    backup_artifacts_present: bool,
    operation_plan_present: bool,
)
    ensures
        ({
            let r = report_spec(journal, backup_artifacts_present, operation_plan_present, None);
            let applied = journal.status == OperationStatus::Applied || journal.status
                == OperationStatus::Verified;
            &&& r.operation_id == journal.operation_id
            &&& r.staged_artifacts_present == applied
            &&& r.boot_entry_registered == applied
            &&& r.verified == (backup_artifacts_present && operation_plan_present)
            &&& !r.warnings.contains("Managed WinPE staging artifacts are incomplete or missing."@)
            &&& !r.warnings.contains("Managed BCD entry is missing or no longer registered."@)
            &&& r.warnings.contains(checkpointed_warning()) <==> journal.status
                == OperationStatus::Checkpointed
            &&& r.warnings.contains("Backup artifacts are incomplete or missing."@)
                <==> !backup_artifacts_present
            &&& r.warnings.contains("Saved plan artifact is missing for the operation."@)
                <==> !operation_plan_present
        }),
{
    lemma_report_warning_set(journal, backup_artifacts_present, operation_plan_present, None);
}

/// Every journal that applying a plan records, after the checkpoint alone
/// or after staging a WinPE payload, keeps the plan's identity and its
/// backup root (where the manifest, the ESP copy and the BCD export live),
/// whatever the checkpoint's own directories are.
pub proof fn applied_journals_keep_the_plan_backup_root(
    plan: ExecutionPlanView,
    operation_id: Seq<char>,
    esp_backup_dir: Seq<char>,
    bcd_store_path: Seq<char>,
    stage_root: Seq<char>,
    loader_spec_path: Seq<char>,
    entry_id: Seq<char>,
    entry_display_name: Seq<char>,
)
    ensures
        ({
            let c = checkpoint_journal_spec(plan, operation_id, esp_backup_dir, bcd_store_path);
            &&& c.backup_root == plan.backup_root
            &&& c.plan_id == plan.plan_id
            &&& c.operation_id == operation_id
        }),
        ({
            let w = winpe_journal_spec(
                plan,
                operation_id,
                esp_backup_dir,
                bcd_store_path,
                stage_root,
                loader_spec_path,
                entry_id,
                entry_display_name,
            );
            &&& w.backup_root == plan.backup_root
            &&& w.plan_id == plan.plan_id
            &&& w.operation_id == operation_id
        }),
{
}

/// The record appended to a journal when its operation is rolled back.
pub open spec fn rollback_marker() -> OperationStepRecordView {
    OperationStepRecordView {
        step_id: 255,
        kind: PlanStepKind::VerifyBootEntry,
        outcome: ActionOutcome::Completed,
        detail: "Rollback marker recorded by the scaffold service."@,
    }
}

/// A journal after its operation was rolled back: status rolled back, a
/// summary naming the operation, and the rollback marker appended.
pub open spec fn rolled_back_spec(j: OperationJournalView, operation_id: Seq<char>) -> OperationJournalView {
    OperationJournalView {
        status: OperationStatus::RolledBack,
        summary: "Rolled back operation "@ + operation_id + " using recorded backup state."@,
        steps: j.steps.push(rollback_marker()),
        ..j
    }
}

/// A journal after repair guidance was recorded for it.
pub open spec fn repair_suggested_spec(j: OperationJournalView, operation_id: Seq<char>) -> OperationJournalView {
    OperationJournalView {
        status: OperationStatus::RepairSuggested,
        summary: "Repair guidance recorded for "@ + operation_id
            + ". Re-run verify or rollback on Windows to complete live remediation."@,
        ..j
    }
}

impl PartBooterService {
    /// Records in `journal` that operation `operation_id` was rolled back.
    pub fn rollback_operation(&self, journal: &mut OperationJournal, operation_id: &str)
        ensures
            final(journal)@ == rolled_back_spec(old(journal)@, operation_id@),
    {
        journal.status = OperationStatus::RolledBack;
        let mut summary = "Rolled back operation ".to_owned();
        push_str(&mut summary, operation_id);
        push_str(&mut summary, " using recorded backup state.");
        journal.summary = summary;
        let marker = record(
            255,
            PlanStepKind::VerifyBootEntry,
            ActionOutcome::Completed,
            "Rollback marker recorded by the scaffold service.".to_owned(),
        );
        let ghost before = journal.steps@;
        journal.steps.push(marker);
        proof {
            assert(record_views(journal.steps@) =~= record_views(before).push(marker@));
        }
        assert(journal@ =~= rolled_back_spec(old(journal)@, operation_id@));
}

/// Records in `journal`, the journal of the latest operation
/// `operation_id`, that repair guidance was given for it.
pub fn repair_latest(&self, journal: &mut OperationJournal, operation_id: &str)
    ensures
        final(journal)@ == repair_suggested_spec(old(journal)@, operation_id@),
{
    journal.status = OperationStatus::RepairSuggested;
    let mut summary = "Repair guidance recorded for ".to_owned();
    push_str(&mut summary, operation_id);
    push_str(&mut summary, ". Re-run verify or rollback on Windows to complete live remediation.");
    journal.summary = summary;
    assert(journal@ =~= repair_suggested_spec(old(journal)@, operation_id@));
}

}


// ---------------------------------------------------------------------
// Laws
// ---------------------------------------------------------------------

/// Every plan is additive: it never replaces the default boot path, its
/// first risk flag says so, and it keeps the inspected payload as is.
pub proof fn plans_are_additive(
    probe: MachineProbeView,
    payload: PayloadSpecView,
    target_volume: Seq<char>,
    plan_id: Seq<char>,
    backup_root: Seq<char>,
    created_at: Seq<char>,
)
    ensures
        plan_spec(probe, payload, target_volume, plan_id, backup_root, created_at) matches Ok(p)
            ==> {
            &&& !p.replace_default_boot_path
            &&& p.risk_flags.len() >= 1
            &&& p.risk_flags[0] == additive_only_flag()
            &&& p.version == 1
            &&& p.payload == payload
            &&& p.target_volume == target_volume
        },
{
}

/// Every plan has six steps numbered 1 to 6; the ESP backup and the boot
/// configuration snapshot come first, before anything is staged or
/// registered, and only the final verification runs without elevation.
pub proof fn plans_back_up_first(
    probe: MachineProbeView,
    payload: PayloadSpecView,
    target_volume: Seq<char>,
    plan_id: Seq<char>,
    backup_root: Seq<char>,
    created_at: Seq<char>,
)
    ensures
        plan_spec(probe, payload, target_volume, plan_id, backup_root, created_at) matches Ok(p)
            ==> {
            &&& p.steps.len() == 6
            &&& forall|i: int| 0 <= i < 6 ==> #[trigger] p.steps[i].id == i + 1
            &&& p.steps[0].kind == PlanStepKind::BackupEsp
            &&& p.steps[1].kind == PlanStepKind::SnapshotBootConfig
            &&& forall|i: int|
                0 <= i < 6 && (p.steps[i].kind == PlanStepKind::StagePayload
                    || p.steps[i].kind == PlanStepKind::RegisterBootEntry) ==> i >= 2
            &&& forall|i: int| 0 <= i < 6 ==> (#[trigger] p.steps[i].requires_elevation <==> i < 5)
        },
{
}

/// Planning succeeds exactly for a host the probe shows fit and a
/// supported payload; an unfit host fails as an unsupported environment
/// (exit code 2) whatever the payload, and a supported host with an
/// unsupported payload fails validation (exit code 3).
pub proof fn planning_succeeds_exactly_when_supported(
    probe: MachineProbeView,
    payload: PayloadSpecView,
    target_volume: Seq<char>,
    plan_id: Seq<char>,
    backup_root: Seq<char>,
    created_at: Seq<char>,
)
    ensures
        plan_spec(probe, payload, target_volume, plan_id, backup_root, created_at) is Ok <==> (
        probe_check(probe) is None && payload.supported),
        probe_check(probe) is Some ==> (plan_spec(
            probe,
            payload,
            target_volume,
            plan_id,
            backup_root,
            created_at,
        ) matches Err((k, _)) && k == AppErrorKind::UnsupportedEnvironment
            && k.exit_code_spec() == 2),
        probe_check(probe) is None && !payload.supported ==> (plan_spec(
            probe,
            payload,
            target_volume,
            plan_id,
            backup_root,
            created_at,
        ) matches Err((k, _)) && k == AppErrorKind::Validation && k.exit_code_spec() == 3),
        !probe.supported ==> probe_check(probe) is Some,
        probe.firmware_mode != FirmwareMode::Uefi ==> probe_check(probe) is Some,
        probe.partition_style != PartitionStyle::Gpt ==> probe_check(probe) is Some,
{
}

/// The risk flags follow the probe: a BitLocker flag exactly when
/// BitLocker was detected, one flag per probe warning carrying that
/// warning in order, and a Secure Boot flag exactly when Secure Boot meets
/// a Linux ISO.
pub proof fn risk_flags_follow_probe(probe: MachineProbeView, kind: PayloadKind)
    ensures
        ({
            let flags = risk_flags_spec(probe, kind);
            let b: int = if probe.bitlocker_detected { 1 } else { 0 };
            let sb = probe.secure_boot_enabled && kind == PayloadKind::LinuxIso;
            &&& flags.len() == 1 + b + probe.warnings.len() + (if sb { 1int } else { 0 })
            &&& flags[0] == additive_only_flag()
            &&& probe.bitlocker_detected ==> flags[1] == bitlocker_flag()
            &&& forall|i: int|
                0 <= i < probe.warnings.len() ==> #[trigger] flags[1 + b + i].message
                    == probe.warnings[i] && flags[1 + b + i].level == RiskLevel::Warning
            &&& sb ==> flags.last() == secure_boot_flag()
            &&& !sb ==> forall|i: int| 0 <= i < flags.len() ==> #[trigger] flags[i] != secure_boot_flag()
            &&& !probe.bitlocker_detected ==> forall|i: int|
                0 <= i < flags.len() ==> #[trigger] flags[i] != bitlocker_flag()
        }),
{
    let flags = risk_flags_spec(probe, kind);
    let b: int = if probe.bitlocker_detected { 1 } else { 0 };
    let sb = probe.secure_boot_enabled && kind == PayloadKind::LinuxIso;
    reveal_strlit("additive-only");
    reveal_strlit("bitlocker-detected");
    reveal_strlit("secure-boot-review");
    reveal_strlit("probe-warning-");
    assert(additive_only_flag().code[0] == 'a');
    assert(bitlocker_flag().code[0] == 'b');
    assert(secure_boot_flag().code[0] == 's');
    assert forall|i: int| 0 <= i < probe.warnings.len() implies #[trigger] warning_flags(
        probe.warnings,
    )[i].code[0] == 'p' by {
        assert(warning_flag(i, probe.warnings[i]).code[0] == 'p');
    }
    if !sb {
        assert forall|i: int| 0 <= i < flags.len() implies #[trigger] flags[i] != secure_boot_flag() by {
            if i >= 1 + b {
                assert(flags[i] == warning_flags(probe.warnings)[i - 1 - b]);
                assert(flags[i].code[0] == 'p');
            }
        }
    }
    if !probe.bitlocker_detected {
        assert forall|i: int| 0 <= i < flags.len() implies #[trigger] flags[i] != bitlocker_flag() by {
            if i >= 1 && i < 1 + probe.warnings.len() {
                assert(flags[i] == warning_flags(probe.warnings)[i - 1]);
                assert(flags[i].code[0] == 'p');
            }
        }
    }
}

/// A report says verified only when the backup artifacts and the saved
/// plan exist, and, where a boot path is expected (WinPE metadata was
/// recorded, or the journal says applied or verified), only when the
/// staged files exist and the entry is registered.
pub proof fn verified_reports_have_evidence(
    journal: OperationJournalView,
    backup_artifacts_present: bool,
    operation_plan_present: bool,
    winpe: Option<(bool, bool)>,
)
    ensures
        ({
            let r = report_spec(journal, backup_artifacts_present, operation_plan_present, winpe);
            &&& r.verified ==> r.backup_artifacts_present && r.operation_plan_present
            &&& r.verified && (winpe is Some || journal.status == OperationStatus::Applied
                || journal.status == OperationStatus::Verified) ==> r.staged_artifacts_present
                && r.boot_entry_registered
            &&& r.operation_id == journal.operation_id
            &&& !backup_artifacts_present ==> r.warnings.contains(
                "Backup artifacts are incomplete or missing."@,
            )
            &&& !operation_plan_present ==> r.warnings.contains(
                "Saved plan artifact is missing for the operation."@,
            )
        }),
{
    let r = report_spec(journal, backup_artifacts_present, operation_plan_present, winpe);
    if !backup_artifacts_present {
        let k = r.warnings.len() - 1 - (if !operation_plan_present { 1int } else { 0 });
        assert(r.warnings[k] == "Backup artifacts are incomplete or missing."@);
    }
    if !operation_plan_present {
        assert(r.warnings[r.warnings.len() - 1] == "Saved plan artifact is missing for the operation."@);
    }
}

/// Rolling back keeps the journal's identity and history: the same
/// operation, plan and backup root, every earlier step record in place,
/// and the rollback marker appended as the last record.
pub proof fn rollback_keeps_history(j: OperationJournalView, operation_id: Seq<char>)
    ensures
        ({
            let r = rolled_back_spec(j, operation_id);
            &&& r.status == OperationStatus::RolledBack
            &&& r.operation_id == j.operation_id
            &&& r.plan_id == j.plan_id
            &&& r.backup_root == j.backup_root
            &&& r.steps.len() == j.steps.len() + 1
            &&& r.steps.take(j.steps.len() as int) == j.steps
            &&& r.steps.last() == rollback_marker()
        }),
{
    let r = rolled_back_spec(j, operation_id);
    assert(r.steps.take(j.steps.len() as int) =~= j.steps);
}

/// Verifying a rolled-back operation whose WinPE metadata was removed
/// never reports staged files or a registered entry, and calls it
/// verified exactly when the backup artifacts and saved plan remain.
pub proof fn rolled_back_operations_show_no_staging(
    j: OperationJournalView,
    operation_id: Seq<char>,
    backup_artifacts_present: bool,
    operation_plan_present: bool,
)
    ensures
        ({
            let r = report_spec(
                rolled_back_spec(j, operation_id),
                backup_artifacts_present,
                operation_plan_present,
                None,
            );
            &&& !r.staged_artifacts_present
            &&& !r.boot_entry_registered
            &&& r.verified == (backup_artifacts_present && operation_plan_present)
        }),
{
}

/// Recording repair guidance changes only the status and the summary.
pub proof fn repair_changes_only_status_and_summary(j: OperationJournalView, operation_id: Seq<char>)
    ensures
        ({
            let r = repair_suggested_spec(j, operation_id);
            &&& r.status == OperationStatus::RepairSuggested
            &&& r.operation_id == j.operation_id
            &&& r.plan_id == j.plan_id
            &&& r.backup_root == j.backup_root
            &&& r.steps == j.steps
        }),
{
}

/// A checkpoint journal records every plan step in order: the backup
/// steps completed and every other step skipped; its report carries the
/// checkpoint warning first and is verified exactly when the backup
/// artifacts and the saved plan exist.
pub proof fn checkpoint_journals_record_the_backup(
    plan: ExecutionPlanView,
    operation_id: Seq<char>,
    esp_backup_dir: Seq<char>,
    bcd_store_path: Seq<char>,
    backup_artifacts_present: bool,
    operation_plan_present: bool,
)
    ensures
        ({
            let j = checkpoint_journal_spec(plan, operation_id, esp_backup_dir, bcd_store_path);
            let r = report_spec(j, backup_artifacts_present, operation_plan_present, None);
            &&& j.steps.len() == plan.steps.len()
            &&& forall|i: int|
                0 <= i < plan.steps.len() ==> #[trigger] j.steps[i].step_id == plan.steps[i].id
                    && j.steps[i].kind == plan.steps[i].kind && (j.steps[i].outcome
                    == ActionOutcome::Completed <==> (plan.steps[i].kind == PlanStepKind::BackupEsp
                    || plan.steps[i].kind == PlanStepKind::SnapshotBootConfig))
            &&& r.warnings[0] == checkpointed_warning()
            &&& r.verified == (backup_artifacts_present && operation_plan_present)
        }),
{
}

/// A WinPE journal marks every plan step completed and the operation
/// applied; verifying it with its WinPE metadata recorded says verified
/// exactly when the backup artifacts, the saved plan and the staged files
/// exist and the entry is registered, and warns about each that is not.
pub proof fn winpe_journals_complete_every_step(
    plan: ExecutionPlanView,
    operation_id: Seq<char>,
    esp_backup_dir: Seq<char>,
    bcd_store_path: Seq<char>,
    stage_root: Seq<char>,
    loader_spec_path: Seq<char>,
    entry_id: Seq<char>,
    entry_display_name: Seq<char>,
    backup_artifacts_present: bool,
    operation_plan_present: bool,
    staged_files_present: bool,
    entry_registered: bool,
)
    ensures
        ({
            let j = winpe_journal_spec(
                plan,
                operation_id,
                esp_backup_dir,
                bcd_store_path,
                stage_root,
                loader_spec_path,
                entry_id,
                entry_display_name,
            );
            let r = report_spec(
                j,
                backup_artifacts_present,
                operation_plan_present,
                Some((staged_files_present, entry_registered)),
            );
            &&& j.status == OperationStatus::Applied
            &&& j.steps.len() == plan.steps.len()
            &&& forall|i: int|
                0 <= i < plan.steps.len() ==> #[trigger] j.steps[i].outcome == ActionOutcome::Completed
                    && j.steps[i].step_id == plan.steps[i].id
            &&& r.verified == (backup_artifacts_present && operation_plan_present
                && staged_files_present && entry_registered)
            &&& r.verified <==> r.warnings.len() == 0
        }),
{
}

} // verus!
