//! The shared domain model: enumerations with their text names, and the
//! records that describe probes, payloads, plans, operations and reports.

use vstd::prelude::*;
use crate::json::views;
use crate::text::text_eq;

verus! {

/// The operating system the tool runs on.
#[derive(Debug, Clone, Copy, PartialEq, Eq, Structural)]
pub enum HostPlatform {
    Windows,
}

impl HostPlatform {
    /// The text name of this value.
    pub open spec fn name_spec(self) -> Seq<char> {
        match self {
            HostPlatform::Windows => "windows"@,
        }
    }

    pub fn as_str(&self) -> (s: &'static str)
        ensures
            s@ == self.name_spec(),
    {
        match self {
            HostPlatform::Windows => "windows",
        }
    }
}

/// How the machine's firmware boots.
#[derive(Debug, Clone, Copy, PartialEq, Eq, Structural)]
pub enum FirmwareMode {
    Uefi,
    Bios,
}

impl FirmwareMode {
    /// The text name of this value.
    pub open spec fn name_spec(self) -> Seq<char> {
        match self {
            FirmwareMode::Uefi => "uefi"@,
            FirmwareMode::Bios => "bios"@,
        }
    }

    pub fn as_str(&self) -> (s: &'static str)
        ensures
            s@ == self.name_spec(),
    {
        match self {
            FirmwareMode::Uefi => "uefi",
            FirmwareMode::Bios => "bios",
        }
    }
}

/// The partition table style of the system disk.
#[derive(Debug, Clone, Copy, PartialEq, Eq, Structural)]
pub enum PartitionStyle {
    Gpt,
    Mbr,
    Unknown,
}

impl PartitionStyle {
    /// The text name of this value.
    pub open spec fn name_spec(self) -> Seq<char> {
        match self {
            PartitionStyle::Gpt => "gpt"@,
            PartitionStyle::Mbr => "mbr"@,
            PartitionStyle::Unknown => "unknown"@,
        }
    }

    pub fn as_str(&self) -> (s: &'static str)
        ensures
            s@ == self.name_spec(),
    {
        match self {
            PartitionStyle::Gpt => "gpt",
            PartitionStyle::Mbr => "mbr",
            PartitionStyle::Unknown => "unknown",
        }
    }
}

/// The kind of boot payload a source file holds.
#[derive(Debug, Clone, Copy, PartialEq, Eq, Structural)]
pub enum PayloadKind {
    LinuxIso,
    WinPe,
    Unsupported,
}

impl PayloadKind {
    /// The text name of this value.
    pub open spec fn name_spec(self) -> Seq<char> {
        match self {
            PayloadKind::LinuxIso => "linux-iso"@,
            PayloadKind::WinPe => "winpe"@,
            PayloadKind::Unsupported => "unsupported"@,
        }
    }

    /// The value whose text name is `s`, if any.
    pub open spec fn parse_spec(s: Seq<char>) -> Option<Self> {
        if s == "linux-iso"@ {
            Some(PayloadKind::LinuxIso)
        } else if s == "winpe"@ {
            Some(PayloadKind::WinPe)
        } else if s == "unsupported"@ {
            Some(PayloadKind::Unsupported)
        } else {
            None
        }
    }

    pub fn as_str(&self) -> (s: &'static str)
        ensures
            s@ == self.name_spec(),
    {
        match self {
            PayloadKind::LinuxIso => "linux-iso",
            PayloadKind::WinPe => "winpe",
            PayloadKind::Unsupported => "unsupported",
        }
    }

    pub fn from_str(value: &str) -> (r: Option<Self>)
        ensures
            r == Self::parse_spec(value@),
    {
        if text_eq(value, "linux-iso") {
            Some(PayloadKind::LinuxIso)
        } else if text_eq(value, "winpe") {
            Some(PayloadKind::WinPe)
        } else if text_eq(value, "unsupported") {
            Some(PayloadKind::Unsupported)
        } else {
            None
        }
    }
}

/// How serious a risk flag on a plan is.
#[derive(Debug, Clone, Copy, PartialEq, Eq, Structural)]
pub enum RiskLevel {
    Info,
    Warning,
    Blocker,
}

impl RiskLevel {
    /// The text name of this value.
    pub open spec fn name_spec(self) -> Seq<char> {
        match self {
            RiskLevel::Info => "info"@,
            RiskLevel::Warning => "warning"@,
            RiskLevel::Blocker => "blocker"@,
        }
    }

    /// The value whose text name is `s`, if any.
    pub open spec fn parse_spec(s: Seq<char>) -> Option<Self> {
        if s == "info"@ {
            Some(RiskLevel::Info)
        } else if s == "warning"@ {
            Some(RiskLevel::Warning)
        } else if s == "blocker"@ {
            Some(RiskLevel::Blocker)
        } else {
            None
        }
    }

    pub fn as_str(&self) -> (s: &'static str)
        ensures
            s@ == self.name_spec(),
    {
        match self {
            RiskLevel::Info => "info",
            RiskLevel::Warning => "warning",
            RiskLevel::Blocker => "blocker",
        }
    }

    pub fn from_str(value: &str) -> (r: Option<Self>)
        ensures
            r == Self::parse_spec(value@),
    {
        if text_eq(value, "info") {
            Some(RiskLevel::Info)
        } else if text_eq(value, "warning") {
            Some(RiskLevel::Warning)
        } else if text_eq(value, "blocker") {
            Some(RiskLevel::Blocker)
        } else {
            None
        }
    }
}

/// The kind of a step in an execution plan.
#[derive(Debug, Clone, Copy, PartialEq, Eq, Structural)]
pub enum PlanStepKind {
    BackupEsp,
    SnapshotBootConfig,
    StagePayload,
    WriteLoaderConfig,
    RegisterBootEntry,
    VerifyBootEntry,
}

impl PlanStepKind {
    /// The text name of this value.
    pub open spec fn name_spec(self) -> Seq<char> {
        match self {
            PlanStepKind::BackupEsp => "backup-esp"@,
            PlanStepKind::SnapshotBootConfig => "snapshot-boot-config"@,
            PlanStepKind::StagePayload => "stage-payload"@,
            PlanStepKind::WriteLoaderConfig => "write-loader-config"@,
            PlanStepKind::RegisterBootEntry => "register-boot-entry"@,
            PlanStepKind::VerifyBootEntry => "verify-boot-entry"@,
        }
    }

    /// The value whose text name is `s`, if any.
    pub open spec fn parse_spec(s: Seq<char>) -> Option<Self> {
        if s == "backup-esp"@ {
            Some(PlanStepKind::BackupEsp)
        } else if s == "snapshot-boot-config"@ {
            Some(PlanStepKind::SnapshotBootConfig)
        } else if s == "stage-payload"@ {
            Some(PlanStepKind::StagePayload)
        } else if s == "write-loader-config"@ {
            Some(PlanStepKind::WriteLoaderConfig)
        } else if s == "register-boot-entry"@ {
            Some(PlanStepKind::RegisterBootEntry)
        } else if s == "verify-boot-entry"@ {
            Some(PlanStepKind::VerifyBootEntry)
        } else {
            None
        }
    }

    pub fn as_str(&self) -> (s: &'static str)
        ensures
            s@ == self.name_spec(),
    {
        match self {
            PlanStepKind::BackupEsp => "backup-esp",
            PlanStepKind::SnapshotBootConfig => "snapshot-boot-config",
            PlanStepKind::StagePayload => "stage-payload",
            PlanStepKind::WriteLoaderConfig => "write-loader-config",
            PlanStepKind::RegisterBootEntry => "register-boot-entry",
            PlanStepKind::VerifyBootEntry => "verify-boot-entry",
        }
    }

    pub fn from_str(value: &str) -> (r: Option<Self>)
        ensures
            r == Self::parse_spec(value@),
    {
        if text_eq(value, "backup-esp") {
            Some(PlanStepKind::BackupEsp)
        } else if text_eq(value, "snapshot-boot-config") {
            Some(PlanStepKind::SnapshotBootConfig)
        } else if text_eq(value, "stage-payload") {
            Some(PlanStepKind::StagePayload)
        } else if text_eq(value, "write-loader-config") {
            Some(PlanStepKind::WriteLoaderConfig)
        } else if text_eq(value, "register-boot-entry") {
            Some(PlanStepKind::RegisterBootEntry)
        } else if text_eq(value, "verify-boot-entry") {
            Some(PlanStepKind::VerifyBootEntry)
        } else {
            None
        }
    }
}

/// What became of one plan step when an operation ran.
#[derive(Debug, Clone, Copy, PartialEq, Eq, Structural)]
pub enum ActionOutcome {
    Pending,
    Completed,
    Failed,
    Skipped,
}

impl ActionOutcome {
    /// The text name of this value.
    pub open spec fn name_spec(self) -> Seq<char> {
        match self {
            ActionOutcome::Pending => "pending"@,
            ActionOutcome::Completed => "completed"@,
            ActionOutcome::Failed => "failed"@,
            ActionOutcome::Skipped => "skipped"@,
        }
    }

    /// The value whose text name is `s`, if any.
    pub open spec fn parse_spec(s: Seq<char>) -> Option<Self> {
        if s == "pending"@ {
            Some(ActionOutcome::Pending)
        } else if s == "completed"@ {
            Some(ActionOutcome::Completed)
        } else if s == "failed"@ {
            Some(ActionOutcome::Failed)
        } else if s == "skipped"@ {
            Some(ActionOutcome::Skipped)
        } else {
            None
        }
    }

    pub fn as_str(&self) -> (s: &'static str)
        ensures
            s@ == self.name_spec(),
    {
        match self {
            ActionOutcome::Pending => "pending",
            ActionOutcome::Completed => "completed",
            ActionOutcome::Failed => "failed",
            ActionOutcome::Skipped => "skipped",
        }
    }

    pub fn from_str(value: &str) -> (r: Option<Self>)
        ensures
            r == Self::parse_spec(value@),
    {
        if text_eq(value, "pending") {
            Some(ActionOutcome::Pending)
        } else if text_eq(value, "completed") {
            Some(ActionOutcome::Completed)
        } else if text_eq(value, "failed") {
            Some(ActionOutcome::Failed)
        } else if text_eq(value, "skipped") {
            Some(ActionOutcome::Skipped)
        } else {
            None
        }
    }
}

/// The lifecycle state recorded for an operation.
#[derive(Debug, Clone, Copy, PartialEq, Eq, Structural)]
pub enum OperationStatus {
    Planned,
    Checkpointed,
    Applied,
    Verified,
    RolledBack,
    RepairSuggested,
    Failed,
}

impl OperationStatus {
    /// The text name of this value.
    pub open spec fn name_spec(self) -> Seq<char> {
        match self {
            OperationStatus::Planned => "planned"@,
            OperationStatus::Checkpointed => "checkpointed"@,
            OperationStatus::Applied => "applied"@,
            OperationStatus::Verified => "verified"@,
            OperationStatus::RolledBack => "rolled-back"@,
            OperationStatus::RepairSuggested => "repair-suggested"@,
            OperationStatus::Failed => "failed"@,
        }
    }

    /// The value whose text name is `s`, if any.
    pub open spec fn parse_spec(s: Seq<char>) -> Option<Self> {
        if s == "planned"@ {
            Some(OperationStatus::Planned)
        } else if s == "checkpointed"@ {
            Some(OperationStatus::Checkpointed)
        } else if s == "applied"@ {
            Some(OperationStatus::Applied)
        } else if s == "verified"@ {
            Some(OperationStatus::Verified)
        } else if s == "rolled-back"@ {
            Some(OperationStatus::RolledBack)
        } else if s == "repair-suggested"@ {
            Some(OperationStatus::RepairSuggested)
        } else if s == "failed"@ {
            Some(OperationStatus::Failed)
        } else {
            None
        }
    }

    pub fn as_str(&self) -> (s: &'static str)
        ensures
            s@ == self.name_spec(),
    {
        match self {
            OperationStatus::Planned => "planned",
            OperationStatus::Checkpointed => "checkpointed",
            OperationStatus::Applied => "applied",
            OperationStatus::Verified => "verified",
            OperationStatus::RolledBack => "rolled-back",
            OperationStatus::RepairSuggested => "repair-suggested",
            OperationStatus::Failed => "failed",
        }
    }

    pub fn from_str(value: &str) -> (r: Option<Self>)
        ensures
            r == Self::parse_spec(value@),
    {
        if text_eq(value, "planned") {
            Some(OperationStatus::Planned)
        } else if text_eq(value, "checkpointed") {
            Some(OperationStatus::Checkpointed)
        } else if text_eq(value, "applied") {
            Some(OperationStatus::Applied)
        } else if text_eq(value, "verified") {
            Some(OperationStatus::Verified)
        } else if text_eq(value, "rolled-back") {
            Some(OperationStatus::RolledBack)
        } else if text_eq(value, "repair-suggested") {
            Some(OperationStatus::RepairSuggested)
        } else if text_eq(value, "failed") {
            Some(OperationStatus::Failed)
        } else {
            None
        }
    }
}


/// A token written unescaped into a record line: ASCII, and free of the
/// tab and line-break characters that delimit fields and lines.
pub open spec fn is_plain_token(s: Seq<char>) -> bool {
    &&& vstd::utf8::is_ascii_chars(s)
    &&& forall|i: int| 0 <= i < s.len() ==> #[trigger] s[i] != '\t' && s[i] != '\n' && s[i] != '\r'
}

/// Reading back the text name of any `PayloadKind` gives that same value,
/// and the name is a plain token that can stand unescaped in a record line.
pub proof fn payload_kind_name_round_trip(x: PayloadKind)
    ensures
        PayloadKind::parse_spec(x.name_spec()) == Some(x),
        is_plain_token(x.name_spec()),
{
    reveal_strlit("linux-iso");
    assert("linux-iso"@.len() == 9 && "linux-iso"@[0] == 'l');
    reveal_strlit("winpe");
    assert("winpe"@.len() == 5 && "winpe"@[0] == 'w');
    reveal_strlit("unsupported");
    assert("unsupported"@.len() == 11 && "unsupported"@[0] == 'u');
}

/// Reading back the text name of any `RiskLevel` gives that same value,
/// and the name is a plain token that can stand unescaped in a record line.
pub proof fn risk_level_name_round_trip(x: RiskLevel)
    ensures
        RiskLevel::parse_spec(x.name_spec()) == Some(x),
        is_plain_token(x.name_spec()),
{
    reveal_strlit("info");
    assert("info"@.len() == 4 && "info"@[0] == 'i');
    reveal_strlit("warning");
    assert("warning"@.len() == 7 && "warning"@[0] == 'w');
    reveal_strlit("blocker");
    assert("blocker"@.len() == 7 && "blocker"@[0] == 'b');
}

/// Reading back the text name of any `PlanStepKind` gives that same value,
/// and the name is a plain token that can stand unescaped in a record line.
pub proof fn plan_step_kind_name_round_trip(x: PlanStepKind)
    ensures
        PlanStepKind::parse_spec(x.name_spec()) == Some(x),
        is_plain_token(x.name_spec()),
{
    reveal_strlit("backup-esp");
    assert("backup-esp"@.len() == 10 && "backup-esp"@[0] == 'b');
    reveal_strlit("snapshot-boot-config");
    assert("snapshot-boot-config"@.len() == 20 && "snapshot-boot-config"@[0] == 's');
    reveal_strlit("stage-payload");
    assert("stage-payload"@.len() == 13 && "stage-payload"@[0] == 's');
    reveal_strlit("write-loader-config");
    assert("write-loader-config"@.len() == 19 && "write-loader-config"@[0] == 'w');
    reveal_strlit("register-boot-entry");
    assert("register-boot-entry"@.len() == 19 && "register-boot-entry"@[0] == 'r');
    reveal_strlit("verify-boot-entry");
    assert("verify-boot-entry"@.len() == 17 && "verify-boot-entry"@[0] == 'v');
}

/// Reading back the text name of any `ActionOutcome` gives that same value,
/// and the name is a plain token that can stand unescaped in a record line.
pub proof fn action_outcome_name_round_trip(x: ActionOutcome)
    ensures
        ActionOutcome::parse_spec(x.name_spec()) == Some(x),
        is_plain_token(x.name_spec()),
{
    reveal_strlit("pending");
    assert("pending"@.len() == 7 && "pending"@[0] == 'p');
    reveal_strlit("completed");
    assert("completed"@.len() == 9 && "completed"@[0] == 'c');
    reveal_strlit("failed");
    assert("failed"@.len() == 6 && "failed"@[0] == 'f');
    reveal_strlit("skipped");
    assert("skipped"@.len() == 7 && "skipped"@[0] == 's');
}

/// Reading back the text name of any `OperationStatus` gives that same value,
/// and the name is a plain token that can stand unescaped in a record line.
pub proof fn operation_status_name_round_trip(x: OperationStatus)
    ensures
        OperationStatus::parse_spec(x.name_spec()) == Some(x),
        is_plain_token(x.name_spec()),
{
    reveal_strlit("planned");
    assert("planned"@.len() == 7 && "planned"@[0] == 'p');
    reveal_strlit("checkpointed");
    assert("checkpointed"@.len() == 12 && "checkpointed"@[0] == 'c');
    reveal_strlit("applied");
    assert("applied"@.len() == 7 && "applied"@[0] == 'a');
    reveal_strlit("verified");
    assert("verified"@.len() == 8 && "verified"@[0] == 'v');
    reveal_strlit("rolled-back");
    assert("rolled-back"@.len() == 11 && "rolled-back"@[0] == 'r');
    reveal_strlit("repair-suggested");
    assert("repair-suggested"@.len() == 16 && "repair-suggested"@[0] == 'r');
    reveal_strlit("failed");
    assert("failed"@.len() == 6 && "failed"@[0] == 'f');
}


// ---------------------------------------------------------------------
// Records
// ---------------------------------------------------------------------

/// How new boot entries relate to the machine's default boot path.
#[derive(Debug, Clone, Copy, PartialEq, Eq, Structural)]
pub struct AdditiveBootPolicy {
    pub replace_default_boot_path: bool,
}

/// The EFI System Partition as the probe found it.
#[derive(Debug, Clone, PartialEq, Eq)]
pub struct EspInfo {
    pub volume: String,
    pub mount_point: String,
    pub filesystem: String,
    pub free_space_mb: u64,
}

/// The facts a host probe reports.
#[derive(Debug, Clone, PartialEq, Eq)]
pub struct MachineProbe {
    pub host_platform: HostPlatform,
    pub firmware_mode: FirmwareMode,
    pub partition_style: PartitionStyle,
    pub secure_boot_enabled: bool,
    pub bitlocker_detected: bool,
    pub esp: EspInfo,
    pub warnings: Vec<String>,
    pub supported: bool,
}

/// A classified boot payload.
#[derive(Debug, Clone, PartialEq, Eq)]
pub struct PayloadSpec {
    pub source_path: String,
    pub kind: PayloadKind,
    pub display_name: String,
    pub profile: String,
    pub supported: bool,
    pub notes: Vec<String>,
}

/// A risk attached to a plan.
#[derive(Debug, Clone, PartialEq, Eq)]
pub struct RiskFlag {
    pub code: String,
    pub level: RiskLevel,
    pub message: String,
}

/// One step of an execution plan.
#[derive(Debug, Clone, PartialEq, Eq)]
pub struct PlanStep {
    pub id: u8,
    pub kind: PlanStepKind,
    pub requires_elevation: bool,
    pub description: String,
}

/// The additive plan for staging one payload.
#[derive(Debug, Clone, PartialEq, Eq)]
pub struct ExecutionPlan {
    pub version: u8,
    pub plan_id: String,
    pub target_volume: String,
    pub payload: PayloadSpec,
    pub backup_root: String,
    pub additive_policy: AdditiveBootPolicy,
    pub risk_flags: Vec<RiskFlag>,
    pub steps: Vec<PlanStep>,
    pub created_at: String,
}

/// What happened to one plan step during an operation.
#[derive(Debug, Clone, PartialEq, Eq)]
pub struct OperationStepRecord {
    pub step_id: u8,
    pub kind: PlanStepKind,
    pub outcome: ActionOutcome,
    pub detail: String,
}

/// The journal of one operation.
#[derive(Debug, Clone, PartialEq, Eq)]
pub struct OperationJournal {
    pub operation_id: String,
    pub plan_id: String,
    pub backup_root: String,
    pub status: OperationStatus,
    pub steps: Vec<OperationStepRecord>,
    pub summary: String,
}

/// The outcome of verifying an operation.
#[derive(Debug, Clone, PartialEq, Eq)]
pub struct VerificationReport {
    pub operation_id: String,
    pub backup_artifacts_present: bool,
    pub operation_plan_present: bool,
    pub boot_entry_registered: bool,
    pub staged_artifacts_present: bool,
    pub warnings: Vec<String>,
    pub verified: bool,
}

// ---------------------------------------------------------------------
// Mathematical views of the records
// ---------------------------------------------------------------------

#[verifier::ext_equal]
pub struct EspInfoView {
    pub volume: Seq<char>,
    pub mount_point: Seq<char>,
    pub filesystem: Seq<char>,
    pub free_space_mb: u64,
}

#[verifier::ext_equal]
pub struct MachineProbeView {
    pub host_platform: HostPlatform,
    pub firmware_mode: FirmwareMode,
    pub partition_style: PartitionStyle,
    pub secure_boot_enabled: bool,
    pub bitlocker_detected: bool,
    pub esp: EspInfoView,
    pub warnings: Seq<Seq<char>>,
    pub supported: bool,
}

#[verifier::ext_equal]
pub struct PayloadSpecView {
    pub source_path: Seq<char>,
    pub kind: PayloadKind,
    pub display_name: Seq<char>,
    pub profile: Seq<char>,
    pub supported: bool,
    pub notes: Seq<Seq<char>>,
}

#[verifier::ext_equal]
pub struct RiskFlagView {
    pub code: Seq<char>,
    pub level: RiskLevel,
    pub message: Seq<char>,
}

#[verifier::ext_equal]
pub struct PlanStepView {
    pub id: u8,
    pub kind: PlanStepKind,
    pub requires_elevation: bool,
    pub description: Seq<char>,
}

#[verifier::ext_equal]
pub struct ExecutionPlanView {
    pub version: u8,
    pub plan_id: Seq<char>,
    pub target_volume: Seq<char>,
    pub payload: PayloadSpecView,
    pub backup_root: Seq<char>,
    pub replace_default_boot_path: bool,
    pub risk_flags: Seq<RiskFlagView>,
    pub steps: Seq<PlanStepView>,
    pub created_at: Seq<char>,
}

#[verifier::ext_equal]
pub struct OperationStepRecordView {
    pub step_id: u8,
    pub kind: PlanStepKind,
    pub outcome: ActionOutcome,
    pub detail: Seq<char>,
}

#[verifier::ext_equal]
pub struct OperationJournalView {
    pub operation_id: Seq<char>,
    pub plan_id: Seq<char>,
    pub backup_root: Seq<char>,
    pub status: OperationStatus,
    pub steps: Seq<OperationStepRecordView>,
    pub summary: Seq<char>,
}

#[verifier::ext_equal]
pub struct VerificationReportView {
    pub operation_id: Seq<char>,
    pub backup_artifacts_present: bool,
    pub operation_plan_present: bool,
    pub boot_entry_registered: bool,
    pub staged_artifacts_present: bool,
    pub warnings: Seq<Seq<char>>,
    pub verified: bool,
}

impl View for EspInfo {
    type V = EspInfoView;

    open spec fn view(&self) -> EspInfoView {
        EspInfoView {
            volume: self.volume@,
            mount_point: self.mount_point@,
            filesystem: self.filesystem@,
            free_space_mb: self.free_space_mb,
        }
    }
}

impl View for MachineProbe {
    type V = MachineProbeView;

    open spec fn view(&self) -> MachineProbeView {
        MachineProbeView {
            host_platform: self.host_platform,
            firmware_mode: self.firmware_mode,
            partition_style: self.partition_style,
            secure_boot_enabled: self.secure_boot_enabled,
            bitlocker_detected: self.bitlocker_detected,
            esp: self.esp@,
            warnings: views(self.warnings@),
            supported: self.supported,
        }
    }
}

impl View for PayloadSpec {
    type V = PayloadSpecView;

    open spec fn view(&self) -> PayloadSpecView {
        PayloadSpecView {
            source_path: self.source_path@,
            kind: self.kind,
            display_name: self.display_name@,
            profile: self.profile@,
            supported: self.supported,
            notes: views(self.notes@),
        }
    }
}

impl View for RiskFlag {
    type V = RiskFlagView;

    open spec fn view(&self) -> RiskFlagView {
        RiskFlagView { code: self.code@, level: self.level, message: self.message@ }
    }
}

impl View for PlanStep {
    type V = PlanStepView;

    open spec fn view(&self) -> PlanStepView {
        PlanStepView {
            id: self.id,
            kind: self.kind,
            requires_elevation: self.requires_elevation,
            description: self.description@,
        }
    }
}

/// The views of a sequence of risk flags.
pub open spec fn risk_views(v: Seq<RiskFlag>) -> Seq<RiskFlagView> {
    v.map_values(|r: RiskFlag| r@)
}

/// The views of a sequence of plan steps.
pub open spec fn step_views(v: Seq<PlanStep>) -> Seq<PlanStepView> {
    v.map_values(|r: PlanStep| r@)
}

/// The views of a sequence of operation step records.
pub open spec fn record_views(v: Seq<OperationStepRecord>) -> Seq<OperationStepRecordView> {
    v.map_values(|r: OperationStepRecord| r@)
}

impl View for ExecutionPlan {
    type V = ExecutionPlanView;

    open spec fn view(&self) -> ExecutionPlanView {
        ExecutionPlanView {
            version: self.version,
            plan_id: self.plan_id@,
            target_volume: self.target_volume@,
            payload: self.payload@,
            backup_root: self.backup_root@,
            replace_default_boot_path: self.additive_policy.replace_default_boot_path,
            risk_flags: risk_views(self.risk_flags@),
            steps: step_views(self.steps@),
            created_at: self.created_at@,
        }
    }
}

impl View for OperationStepRecord {
    type V = OperationStepRecordView;

    open spec fn view(&self) -> OperationStepRecordView {
        OperationStepRecordView {
            step_id: self.step_id,
            kind: self.kind,
            outcome: self.outcome,
            detail: self.detail@,
        }
    }
}

impl View for OperationJournal {
    type V = OperationJournalView;

    open spec fn view(&self) -> OperationJournalView {
        OperationJournalView {
            operation_id: self.operation_id@,
            plan_id: self.plan_id@,
            backup_root: self.backup_root@,
            status: self.status,
            steps: record_views(self.steps@),
            summary: self.summary@,
        }
    }
}

impl View for VerificationReport {
    type V = VerificationReportView;

    open spec fn view(&self) -> VerificationReportView {
        VerificationReportView {
            operation_id: self.operation_id@,
            backup_artifacts_present: self.backup_artifacts_present,
            operation_plan_present: self.operation_plan_present,
            boot_entry_registered: self.boot_entry_registered,
            staged_artifacts_present: self.staged_artifacts_present,
            warnings: views(self.warnings@),
            verified: self.verified,
        }
    }
}

}
