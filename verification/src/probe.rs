//! Parsing the `key=value` report that the host probe script prints.

use vstd::prelude::*;
use crate::error::{AppError, AppErrorKind, validation_outcome};
use crate::json::views;
use crate::lines::{lines_spec, split_lines};
use crate::model::{
    EspInfo, EspInfoView, FirmwareMode, HostPlatform, MachineProbe, MachineProbeView,
    PartitionStyle,
};
use crate::plan_file::{matches_outcome, opt_view};
use crate::text::{
    ascii_lower, parse_unsigned, parse_unsigned_spec, push_str, split_once, split_once_spec,
    text_eq, to_ascii_lowercase, trim, trim_spec,
};

verus! {

broadcast use vstd::seq_lib::group_seq_properties;

/// A value compared case-insensitively after trimming.
pub open spec fn normalized(value: Seq<char>) -> Seq<char> {
    ascii_lower(trim_spec(value))
}

pub open spec fn firmware_mode_spec(value: Seq<char>) -> Result<FirmwareMode, Seq<char>> {
    let v = normalized(value);
    if v == "uefi"@ {
        Ok(FirmwareMode::Uefi)
    } else if v == "bios"@ {
        Ok(FirmwareMode::Bios)
    } else {
        Err("invalid firmware_mode value: "@ + value)
    }
}

pub open spec fn partition_style_spec(value: Seq<char>) -> PartitionStyle {
    let v = normalized(value);
    if v == "gpt"@ {
        PartitionStyle::Gpt
    } else if v == "mbr"@ {
        PartitionStyle::Mbr
    } else {
        PartitionStyle::Unknown
    }
}

pub open spec fn bool_field_spec(value: Seq<char>, field_name: Seq<char>) -> Result<bool, Seq<char>> {
    let v = normalized(value);
    if v == "true"@ {
        Ok(true)
    } else if v == "false"@ {
        Ok(false)
    } else {
        Err("invalid "@ + field_name + " value: "@ + value)
    }
}

/// The message for a field the probe report lacks.
pub open spec fn missing_field_message(name: Seq<char>) -> Seq<char> {
    "missing probe output field: "@ + name
}

/// A trimmed, lower-cased copy of `value`.
fn normalize(value: &str) -> (r: String)
    ensures
        r@ == normalized(value@),
{
    let t = trim(value);
    to_ascii_lowercase(t.as_str())
}

/// Concatenation of two strings.
fn concat2(a: &str, b: &str) -> (r: String)
    ensures
        r@ == a@ + b@,
{
    let mut r = a.to_owned();
    push_str(&mut r, b);
    r
}

pub fn parse_firmware_mode(value: &str) -> (r: Result<FirmwareMode, AppError>)
    ensures
        validation_outcome(r, firmware_mode_spec(value@)),
{
    let v = normalize(value);
    if text_eq(v.as_str(), "uefi") {
        Ok(FirmwareMode::Uefi)
    } else if text_eq(v.as_str(), "bios") {
        Ok(FirmwareMode::Bios)
    } else {
        Err(AppError::new(AppErrorKind::Validation, concat2("invalid firmware_mode value: ", value)))
    }
}

pub fn parse_partition_style(value: &str) -> (r: PartitionStyle)
    ensures
        r == partition_style_spec(value@),
{
    let v = normalize(value);
    if text_eq(v.as_str(), "gpt") {
        PartitionStyle::Gpt
    } else if text_eq(v.as_str(), "mbr") {
        PartitionStyle::Mbr
    } else {
        PartitionStyle::Unknown
    }
}

pub fn parse_bool(value: &str, field_name: &str) -> (r: Result<bool, AppError>)
    ensures
        validation_outcome(r, bool_field_spec(value@, field_name@)),
{
    let v = normalize(value);
    if text_eq(v.as_str(), "true") {
        Ok(true)
    } else if text_eq(v.as_str(), "false") {
        Ok(false)
    } else {
        let mut m = "invalid ".to_owned();
        push_str(&mut m, field_name);
        push_str(&mut m, " value: ");
        push_str(&mut m, value);
        Err(AppError::new(AppErrorKind::Validation, m))
    }
}

pub fn missing_field(name: &str) -> (e: AppError)
    ensures
        e.is(AppErrorKind::Validation, missing_field_message(name@)),
{
    AppError::new(AppErrorKind::Validation, concat2("missing probe output field: ", name))
}

/// What has been read from a probe report so far.
#[verifier::ext_equal]
pub struct ProbeDraftView {
    pub host_platform: Option<Seq<char>>,
    pub firmware_mode: Option<FirmwareMode>,
    pub partition_style: Option<PartitionStyle>,
    pub secure_boot_enabled: Option<bool>,
    pub bitlocker_detected: Option<bool>,
    pub esp_volume: Option<Seq<char>>,
    pub esp_mount_point: Option<Seq<char>>,
    pub esp_filesystem: Option<Seq<char>>,
    pub esp_free_space_mb: Option<u64>,
    pub warnings: Seq<Seq<char>>,
    pub supported: Option<bool>,
}

pub open spec fn empty_probe_draft() -> ProbeDraftView {
    ProbeDraftView {
        host_platform: None,
        firmware_mode: None,
        partition_style: None,
        secure_boot_enabled: None,
        bitlocker_detected: None,
        esp_volume: None,
        esp_mount_point: None,
        esp_filesystem: None,
        esp_free_space_mb: None,
        warnings: seq![],
        supported: None,
    }
}

/// The effect of one `key=value` pair; unknown keys change nothing.
#[verifier::opaque]
pub open spec fn probe_pair_spec(d: ProbeDraftView, key: Seq<char>, value: Seq<char>) -> Result<
    ProbeDraftView,
    Seq<char>,
> {
    if key == "host_platform"@ {
        Ok(ProbeDraftView { host_platform: Some(value), ..d })
    } else if key == "firmware_mode"@ {
        match firmware_mode_spec(value) {
            Ok(m) => Ok(ProbeDraftView { firmware_mode: Some(m), ..d }),
            Err(e) => Err(e),
        }
    } else if key == "partition_style"@ {
        Ok(ProbeDraftView { partition_style: Some(partition_style_spec(value)), ..d })
    } else if key == "secure_boot_enabled"@ {
        match bool_field_spec(value, key) {
            Ok(b) => Ok(ProbeDraftView { secure_boot_enabled: Some(b), ..d }),
            Err(e) => Err(e),
        }
    } else if key == "bitlocker_detected"@ {
        match bool_field_spec(value, key) {
            Ok(b) => Ok(ProbeDraftView { bitlocker_detected: Some(b), ..d }),
            Err(e) => Err(e),
        }
    } else if key == "esp_volume"@ {
        Ok(ProbeDraftView { esp_volume: Some(value), ..d })
    } else if key == "esp_mount_point"@ {
        Ok(ProbeDraftView { esp_mount_point: Some(value), ..d })
    } else if key == "esp_filesystem"@ {
        Ok(ProbeDraftView { esp_filesystem: Some(value), ..d })
    } else if key == "esp_free_space_mb"@ {
        match parse_unsigned_spec(value, u64::MAX as nat) {
            Some(v) => Ok(ProbeDraftView { esp_free_space_mb: Some(v as u64), ..d }),
            None => Err("invalid esp_free_space_mb value: "@ + value),
        }
    } else if key == "warning"@ {
        Ok(ProbeDraftView { warnings: d.warnings.push(value), ..d })
    } else if key == "supported"@ {
        match bool_field_spec(value, key) {
            Ok(b) => Ok(ProbeDraftView { supported: Some(b), ..d }),
            Err(e) => Err(e),
        }
    } else {
        Ok(d)
    }
}

/// The effect of one raw report line: blank lines are skipped, and a
/// non-blank line without `=` is an error.
pub open spec fn probe_line_spec(d: ProbeDraftView, raw: Seq<char>) -> Result<
    ProbeDraftView,
    Seq<char>,
> {
    let line = trim_spec(raw);
    if line.len() == 0 {
        Ok(d)
    } else {
        match split_once_spec(line, '=') {
            None => Err("invalid probe output line: "@ + line),
            Some((key, value)) => probe_pair_spec(d, key, value),
        }
    }
}

pub open spec fn probe_lines_spec(d: ProbeDraftView, lines: Seq<Seq<char>>) -> Result<
    ProbeDraftView,
    Seq<char>,
>
    decreases lines.len(),
{
    if lines.len() == 0 {
        Ok(d)
    } else {
        match probe_line_spec(d, lines[0]) {
            Err(e) => Err(e),
            Ok(d2) => probe_lines_spec(d2, lines.skip(1)),
        }
    }
}

/// The probe a complete draft describes, or the first problem.
pub open spec fn probe_finish_spec(d: ProbeDraftView) -> Result<MachineProbeView, Seq<char>> {
    let host = match d.host_platform {
        Some(h) => h,
        None => Seq::<char>::empty(),
    };
    if host != "windows"@ {
        Err("unexpected host platform from probe output: "@ + host)
    } else {
        match d.firmware_mode {
            None => Err(missing_field_message("firmware_mode"@)),
            Some(firmware_mode) => match d.partition_style {
                None => Err(missing_field_message("partition_style"@)),
                Some(partition_style) => match d.secure_boot_enabled {
                    None => Err(missing_field_message("secure_boot_enabled"@)),
                    Some(secure_boot_enabled) => match d.bitlocker_detected {
                        None => Err(missing_field_message("bitlocker_detected"@)),
                        Some(bitlocker_detected) => match d.esp_volume {
                            None => Err(missing_field_message("esp_volume"@)),
                            Some(volume) => match d.esp_mount_point {
                                None => Err(missing_field_message("esp_mount_point"@)),
                                Some(mount_point) => match d.esp_filesystem {
                                    None => Err(missing_field_message("esp_filesystem"@)),
                                    Some(filesystem) => match d.esp_free_space_mb {
                                        None => Err(missing_field_message("esp_free_space_mb"@)),
                                        Some(free_space_mb) => match d.supported {
                                            None => Err(missing_field_message("supported"@)),
                                            Some(supported) => Ok(
                                                MachineProbeView {
                                                    host_platform: HostPlatform::Windows,
                                                    firmware_mode,
                                                    partition_style,
                                                    secure_boot_enabled,
                                                    bitlocker_detected,
                                                    esp: EspInfoView {
                                                        volume,
                                                        mount_point,
                                                        filesystem,
                                                        free_space_mb,
                                                    },
                                                    warnings: d.warnings,
                                                    supported,
                                                },
                                            ),
                                        },
                                    },
                                },
                            },
                        },
                    },
                },
            },
        }
    }
}

/// What parsing a probe report gives: the probe, or the message of the
/// validation error.
pub open spec fn probe_output_spec(output: Seq<char>) -> Result<MachineProbeView, Seq<char>> {
    match probe_lines_spec(empty_probe_draft(), lines_spec(output)) {
        Err(e) => Err(e),
        Ok(d) => probe_finish_spec(d),
    }
}

/// The value a report line gives `key`: the text after the first `=` of
/// the trimmed line, when the text before it is `key`.
pub open spec fn line_value(raw: Seq<char>, key: Seq<char>) -> Option<Seq<char>> {
    let line = trim_spec(raw);
    if line.len() == 0 {
        None
    } else {
        match split_once_spec(line, '=') {
            Some((k, v)) => if k == key {
                Some(v)
            } else {
                None
            },
            None => None,
        }
    }
}

/// The value the last line naming `key` gives it, if any line does.
pub open spec fn last_value(lines: Seq<Seq<char>>, key: Seq<char>) -> Option<Seq<char>>
    decreases lines.len(),
{
    if lines.len() == 0 {
        None
    } else {
        match last_value(lines.skip(1), key) {
            Some(v) => Some(v),
            None => line_value(lines[0], key),
        }
    }
}

/// `later` if it is there, else `earlier`.
pub open spec fn or_else(later: Option<Seq<char>>, earlier: Option<Seq<char>>) -> Option<Seq<char>> {
    match later {
        Some(v) => Some(v),
        None => earlier,
    }
}

proof fn lemma_all_probe_keys_differ()
    ensures
        "host_platform"@ != "firmware_mode"@,
        "host_platform"@ != "partition_style"@,
        "host_platform"@ != "secure_boot_enabled"@,
        "host_platform"@ != "bitlocker_detected"@,
        "host_platform"@ != "esp_volume"@,
        "host_platform"@ != "esp_mount_point"@,
        "host_platform"@ != "esp_filesystem"@,
        "host_platform"@ != "esp_free_space_mb"@,
        "host_platform"@ != "warning"@,
        "host_platform"@ != "supported"@,
        "firmware_mode"@ != "partition_style"@,
        "firmware_mode"@ != "secure_boot_enabled"@,
        "firmware_mode"@ != "bitlocker_detected"@,
        "firmware_mode"@ != "esp_volume"@,
        "firmware_mode"@ != "esp_mount_point"@,
        "firmware_mode"@ != "esp_filesystem"@,
        "firmware_mode"@ != "esp_free_space_mb"@,
        "firmware_mode"@ != "warning"@,
        "firmware_mode"@ != "supported"@,
        "partition_style"@ != "secure_boot_enabled"@,
        "partition_style"@ != "bitlocker_detected"@,
        "partition_style"@ != "esp_volume"@,
        "partition_style"@ != "esp_mount_point"@,
        "partition_style"@ != "esp_filesystem"@,
        "partition_style"@ != "esp_free_space_mb"@,
        "partition_style"@ != "warning"@,
        "partition_style"@ != "supported"@,
        "secure_boot_enabled"@ != "bitlocker_detected"@,
        "secure_boot_enabled"@ != "esp_volume"@,
        "secure_boot_enabled"@ != "esp_mount_point"@,
        "secure_boot_enabled"@ != "esp_filesystem"@,
        "secure_boot_enabled"@ != "esp_free_space_mb"@,
        "secure_boot_enabled"@ != "warning"@,
        "secure_boot_enabled"@ != "supported"@,
        "bitlocker_detected"@ != "esp_volume"@,
        "bitlocker_detected"@ != "esp_mount_point"@,
        "bitlocker_detected"@ != "esp_filesystem"@,
        "bitlocker_detected"@ != "esp_free_space_mb"@,
        "bitlocker_detected"@ != "warning"@,
        "bitlocker_detected"@ != "supported"@,
        "esp_volume"@ != "esp_mount_point"@,
        "esp_volume"@ != "esp_filesystem"@,
        "esp_volume"@ != "esp_free_space_mb"@,
        "esp_volume"@ != "warning"@,
        "esp_volume"@ != "supported"@,
        "esp_mount_point"@ != "esp_filesystem"@,
        "esp_mount_point"@ != "esp_free_space_mb"@,
        "esp_mount_point"@ != "warning"@,
        "esp_mount_point"@ != "supported"@,
        "esp_filesystem"@ != "esp_free_space_mb"@,
        "esp_filesystem"@ != "warning"@,
        "esp_filesystem"@ != "supported"@,
        "esp_free_space_mb"@ != "warning"@,
        "esp_free_space_mb"@ != "supported"@,
        "warning"@ != "supported"@,
{
    reveal_strlit("host_platform");
    reveal_strlit("firmware_mode");
    reveal_strlit("partition_style");
    reveal_strlit("secure_boot_enabled");
    reveal_strlit("bitlocker_detected");
    reveal_strlit("esp_volume");
    reveal_strlit("esp_mount_point");
    reveal_strlit("esp_filesystem");
    reveal_strlit("esp_free_space_mb");
    reveal_strlit("warning");
    reveal_strlit("supported");
    assert("host_platform"@[0] != "firmware_mode"@[0]);
    assert("host_platform"@.len() != "partition_style"@.len());
    assert("host_platform"@.len() != "secure_boot_enabled"@.len());
    assert("host_platform"@.len() != "bitlocker_detected"@.len());
    assert("host_platform"@.len() != "esp_volume"@.len());
    assert("host_platform"@.len() != "esp_mount_point"@.len());
    assert("host_platform"@.len() != "esp_filesystem"@.len());
    assert("host_platform"@.len() != "esp_free_space_mb"@.len());
    assert("host_platform"@.len() != "warning"@.len());
    assert("host_platform"@.len() != "supported"@.len());
    assert("firmware_mode"@.len() != "partition_style"@.len());
    assert("firmware_mode"@.len() != "secure_boot_enabled"@.len());
    assert("firmware_mode"@.len() != "bitlocker_detected"@.len());
    assert("firmware_mode"@.len() != "esp_volume"@.len());
    assert("firmware_mode"@.len() != "esp_mount_point"@.len());
    assert("firmware_mode"@.len() != "esp_filesystem"@.len());
    assert("firmware_mode"@.len() != "esp_free_space_mb"@.len());
    assert("firmware_mode"@.len() != "warning"@.len());
    assert("firmware_mode"@.len() != "supported"@.len());
    assert("partition_style"@.len() != "secure_boot_enabled"@.len());
    assert("partition_style"@.len() != "bitlocker_detected"@.len());
    assert("partition_style"@.len() != "esp_volume"@.len());
    assert("partition_style"@[0] != "esp_mount_point"@[0]);
    assert("partition_style"@.len() != "esp_filesystem"@.len());
    assert("partition_style"@.len() != "esp_free_space_mb"@.len());
    assert("partition_style"@.len() != "warning"@.len());
    assert("partition_style"@.len() != "supported"@.len());
    assert("secure_boot_enabled"@.len() != "bitlocker_detected"@.len());
    assert("secure_boot_enabled"@.len() != "esp_volume"@.len());
    assert("secure_boot_enabled"@.len() != "esp_mount_point"@.len());
    assert("secure_boot_enabled"@.len() != "esp_filesystem"@.len());
    assert("secure_boot_enabled"@.len() != "esp_free_space_mb"@.len());
    assert("secure_boot_enabled"@.len() != "warning"@.len());
    assert("secure_boot_enabled"@.len() != "supported"@.len());
    assert("bitlocker_detected"@.len() != "esp_volume"@.len());
    assert("bitlocker_detected"@.len() != "esp_mount_point"@.len());
    assert("bitlocker_detected"@.len() != "esp_filesystem"@.len());
    assert("bitlocker_detected"@.len() != "esp_free_space_mb"@.len());
    assert("bitlocker_detected"@.len() != "warning"@.len());
    assert("bitlocker_detected"@.len() != "supported"@.len());
    assert("esp_volume"@.len() != "esp_mount_point"@.len());
    assert("esp_volume"@.len() != "esp_filesystem"@.len());
    assert("esp_volume"@.len() != "esp_free_space_mb"@.len());
    assert("esp_volume"@.len() != "warning"@.len());
    assert("esp_volume"@.len() != "supported"@.len());
    assert("esp_mount_point"@.len() != "esp_filesystem"@.len());
    assert("esp_mount_point"@.len() != "esp_free_space_mb"@.len());
    assert("esp_mount_point"@.len() != "warning"@.len());
    assert("esp_mount_point"@.len() != "supported"@.len());
    assert("esp_filesystem"@.len() != "esp_free_space_mb"@.len());
    assert("esp_filesystem"@.len() != "warning"@.len());
    assert("esp_filesystem"@.len() != "supported"@.len());
    assert("esp_free_space_mb"@.len() != "warning"@.len());
    assert("esp_free_space_mb"@.len() != "supported"@.len());
    assert("warning"@.len() != "supported"@.len());
}

/// One report line sets the ESP volume, mount point and file system to
/// the values it gives their own keys, and leaves each as it was
/// otherwise.
proof fn lemma_line_sets_esp_fields(d: ProbeDraftView, raw: Seq<char>)
    ensures
        probe_line_spec(d, raw) matches Ok(d1) ==> {
            &&& d1.esp_volume == or_else(line_value(raw, "esp_volume"@), d.esp_volume)
            &&& d1.esp_mount_point == or_else(
                line_value(raw, "esp_mount_point"@),
                d.esp_mount_point,
            )
            &&& d1.esp_filesystem == or_else(line_value(raw, "esp_filesystem"@), d.esp_filesystem)
        },
{
    reveal(probe_pair_spec);
    lemma_all_probe_keys_differ();
}

proof fn lemma_lines_set_esp_fields(d: ProbeDraftView, lines: Seq<Seq<char>>)
    ensures
        probe_lines_spec(d, lines) matches Ok(d2) ==> {
            &&& d2.esp_volume == or_else(last_value(lines, "esp_volume"@), d.esp_volume)
            &&& d2.esp_mount_point == or_else(
                last_value(lines, "esp_mount_point"@),
                d.esp_mount_point,
            )
            &&& d2.esp_filesystem == or_else(last_value(lines, "esp_filesystem"@), d.esp_filesystem)
        },
    decreases lines.len(),
{
    if lines.len() > 0 {
        lemma_line_sets_esp_fields(d, lines[0]);
        match probe_line_spec(d, lines[0]) {
            Ok(d1) => lemma_lines_set_esp_fields(d1, lines.skip(1)),
            Err(_) => {},
        }
    }
}

/// A parsed probe's ESP is the one the report describes: its volume,
/// mount point and file system are the values of the last report lines
/// naming `esp_volume`, `esp_mount_point` and `esp_filesystem`, each key
/// setting its own field.
pub proof fn probe_esp_fields_come_from_their_keys(output: Seq<char>)
    ensures
        probe_output_spec(output) matches Ok(p) ==> {
            let ls = lines_spec(output);
            &&& last_value(ls, "esp_volume"@) == Some(p.esp.volume)
            &&& last_value(ls, "esp_mount_point"@) == Some(p.esp.mount_point)
            &&& last_value(ls, "esp_filesystem"@) == Some(p.esp.filesystem)
        },
{
    lemma_lines_set_esp_fields(empty_probe_draft(), lines_spec(output));
}

/// The values of every line naming `key`, in report order.
pub open spec fn all_values(lines: Seq<Seq<char>>, key: Seq<char>) -> Seq<Seq<char>>
    decreases lines.len(),
{
    if lines.len() == 0 {
        Seq::empty()
    } else {
        (match line_value(lines[0], key) {
            Some(v) => seq![v],
            None => Seq::<Seq<char>>::empty(),
        }) + all_values(lines.skip(1), key)
    }
}

/// `x` is what the report value `v` says of a yes-or-no field.
pub open spec fn says_flag(v: Seq<char>, x: bool) -> bool {
    x == (normalized(v) == "true"@)
}

/// `x` is the firmware mode the report value `v` names.
pub open spec fn says_firmware(v: Seq<char>, x: FirmwareMode) -> bool {
    &&& (x == FirmwareMode::Uefi <==> normalized(v) == "uefi"@)
    &&& (x == FirmwareMode::Bios <==> normalized(v) == "bios"@)
}

/// `x` is the partition style the report value `v` names, unknown for
/// anything but `gpt` and `mbr`.
pub open spec fn says_style(v: Seq<char>, x: PartitionStyle) -> bool {
    &&& (x == PartitionStyle::Gpt <==> normalized(v) == "gpt"@)
    &&& (x == PartitionStyle::Mbr <==> normalized(v) == "mbr"@)
}

/// `x` is the number the report value `v` spells.
pub open spec fn says_number(v: Seq<char>, x: u64) -> bool {
    parse_unsigned_spec(v, u64::MAX as nat) == Some(x as nat)
}

/// What a line or a run of lines did to the parsed fields of a draft:
/// each field that a value `v` was given (`given`) now holds what `v`
/// says, and each other field is as before.
pub open spec fn parsed_fields_follow(
    before: ProbeDraftView,
    after: ProbeDraftView,
    firmware: Option<Seq<char>>,
    style: Option<Seq<char>>,
    secure_boot: Option<Seq<char>>,
    bitlocker: Option<Seq<char>>,
    space: Option<Seq<char>>,
    supported: Option<Seq<char>>,
) -> bool {
    &&& match firmware {
        Some(v) => after.firmware_mode matches Some(x) && says_firmware(v, x),
        None => after.firmware_mode == before.firmware_mode,
    }
    &&& match style {
        Some(v) => after.partition_style matches Some(x) && says_style(v, x),
        None => after.partition_style == before.partition_style,
    }
    &&& match secure_boot {
        Some(v) => after.secure_boot_enabled matches Some(x) && says_flag(v, x),
        None => after.secure_boot_enabled == before.secure_boot_enabled,
    }
    &&& match bitlocker {
        Some(v) => after.bitlocker_detected matches Some(x) && says_flag(v, x),
        None => after.bitlocker_detected == before.bitlocker_detected,
    }
    &&& match space {
        Some(v) => after.esp_free_space_mb matches Some(x) && says_number(v, x),
        None => after.esp_free_space_mb == before.esp_free_space_mb,
    }
    &&& match supported {
        Some(v) => after.supported matches Some(x) && says_flag(v, x),
        None => after.supported == before.supported,
    }
}

proof fn lemma_line_sets_fields(d: ProbeDraftView, raw: Seq<char>)
    ensures
        probe_line_spec(d, raw) matches Ok(d1) ==> {
            &&& d1.host_platform == or_else(line_value(raw, "host_platform"@), d.host_platform)
            &&& d1.warnings == d.warnings + match line_value(raw, "warning"@) {
                Some(v) => seq![v],
                None => Seq::<Seq<char>>::empty(),
            }
            &&& parsed_fields_follow(
                d,
                d1,
                line_value(raw, "firmware_mode"@),
                line_value(raw, "partition_style"@),
                line_value(raw, "secure_boot_enabled"@),
                line_value(raw, "bitlocker_detected"@),
                line_value(raw, "esp_free_space_mb"@),
                line_value(raw, "supported"@),
            )
        },
{
    reveal(probe_pair_spec);
    lemma_all_probe_keys_differ();
    reveal_strlit("true");
    reveal_strlit("false");
    reveal_strlit("uefi");
    reveal_strlit("bios");
    reveal_strlit("gpt");
    reveal_strlit("mbr");
    assert("true"@.len() != "false"@.len());
    assert("uefi"@[0] != "bios"@[0]);
    assert("gpt"@[0] != "mbr"@[0]);
    let line = trim_spec(raw);
    if line.len() > 0 {
        if let Some((k, v)) = split_once_spec(line, '=') {
            if k == "esp_free_space_mb"@ {
                if let Some(n) = parse_unsigned_spec(v, u64::MAX as nat) {
                    assert((n as u64) as nat == n);
                }
            }
        }
    }
    assert(d.warnings + Seq::<Seq<char>>::empty() =~= d.warnings);
}

proof fn lemma_lines_set_fields(d: ProbeDraftView, lines: Seq<Seq<char>>)
    ensures
        probe_lines_spec(d, lines) matches Ok(d2) ==> {
            &&& d2.host_platform == or_else(last_value(lines, "host_platform"@), d.host_platform)
            &&& d2.warnings == d.warnings + all_values(lines, "warning"@)
            &&& parsed_fields_follow(
                d,
                d2,
                last_value(lines, "firmware_mode"@),
                last_value(lines, "partition_style"@),
                last_value(lines, "secure_boot_enabled"@),
                last_value(lines, "bitlocker_detected"@),
                last_value(lines, "esp_free_space_mb"@),
                last_value(lines, "supported"@),
            )
        },
    decreases lines.len(),
{
    if lines.len() == 0 {
        assert(d.warnings + Seq::<Seq<char>>::empty() =~= d.warnings);
    } else {
        lemma_line_sets_fields(d, lines[0]);
        match probe_line_spec(d, lines[0]) {
            Ok(d1) => {
                lemma_lines_set_fields(d1, lines.skip(1));
                let w0 = match line_value(lines[0], "warning"@) {
                    Some(v) => seq![v],
                    None => Seq::<Seq<char>>::empty(),
                };
                assert(d.warnings + w0 + all_values(lines.skip(1), "warning"@) =~= d.warnings + (w0
                    + all_values(lines.skip(1), "warning"@)));
            },
            Err(_) => {},
        }
    }
}

/// A parsed probe is what its report says: the report names the host
/// `windows`; firmware mode, partition style, Secure Boot, BitLocker, the
/// ESP's free space and support are what the last line naming each of
/// their keys says; and the warnings are the values of the `warning`
/// lines, in report order.
pub proof fn probe_fields_come_from_their_keys(output: Seq<char>)
    ensures
        probe_output_spec(output) matches Ok(p) ==> {
            let ls = lines_spec(output);
            &&& p.host_platform == HostPlatform::Windows
            &&& last_value(ls, "host_platform"@) == Some("windows"@)
            &&& last_value(ls, "firmware_mode"@) matches Some(v) && says_firmware(v, p.firmware_mode)
            &&& last_value(ls, "partition_style"@) matches Some(v) && says_style(
                v,
                p.partition_style,
            )
            &&& last_value(ls, "secure_boot_enabled"@) matches Some(v) && says_flag(
                v,
                p.secure_boot_enabled,
            )
            &&& last_value(ls, "bitlocker_detected"@) matches Some(v) && says_flag(
                v,
                p.bitlocker_detected,
            )
            &&& last_value(ls, "esp_free_space_mb"@) matches Some(v) && says_number(
                v,
                p.esp.free_space_mb,
            )
            &&& last_value(ls, "supported"@) matches Some(v) && says_flag(v, p.supported)
            &&& p.warnings == all_values(ls, "warning"@)
        },
{
    let ls = lines_spec(output);
    let d0 = empty_probe_draft();
    lemma_lines_set_fields(d0, ls);
    assert(d0.warnings + all_values(ls, "warning"@) =~= all_values(ls, "warning"@));
    reveal_strlit("windows");
}

struct ProbeDraft {
    host_platform: Option<String>,
    firmware_mode: Option<FirmwareMode>,
    partition_style: Option<PartitionStyle>,
    secure_boot_enabled: Option<bool>,
    bitlocker_detected: Option<bool>,
    esp_volume: Option<String>,
    esp_mount_point: Option<String>,
    esp_filesystem: Option<String>,
    esp_free_space_mb: Option<u64>,
    warnings: Vec<String>,
    supported: Option<bool>,
}

impl View for ProbeDraft {
    type V = ProbeDraftView;

    closed spec fn view(&self) -> ProbeDraftView {
        ProbeDraftView {
            host_platform: opt_view(self.host_platform),
            firmware_mode: self.firmware_mode,
            partition_style: self.partition_style,
            secure_boot_enabled: self.secure_boot_enabled,
            bitlocker_detected: self.bitlocker_detected,
            esp_volume: opt_view(self.esp_volume),
            esp_mount_point: opt_view(self.esp_mount_point),
            esp_filesystem: opt_view(self.esp_filesystem),
            esp_free_space_mb: self.esp_free_space_mb,
            warnings: views(self.warnings@),
            supported: self.supported,
        }
    }
}

impl ProbeDraft {
    fn new() -> (d: Self)
        ensures
            d@ == empty_probe_draft(),
    {
        let d = ProbeDraft {
            host_platform: None,
            firmware_mode: None,
            partition_style: None,
            secure_boot_enabled: None,
            bitlocker_detected: None,
            esp_volume: None,
            esp_mount_point: None,
            esp_filesystem: None,
            esp_free_space_mb: None,
            warnings: Vec::new(),
            supported: None,
        };
        assert(d@ =~= empty_probe_draft());
        d
    }

    fn apply_pair(&mut self, key: &str, value: String) -> (r: Result<(), AppError>)
        ensures
            match probe_pair_spec(old(self)@, key@, value@) {
                Ok(d) => r is Ok && final(self)@ == d,
                Err(m) => r is Err && r->Err_0.is(AppErrorKind::Validation, m),
            },
    {
        reveal(probe_pair_spec);
        if text_eq(key, "host_platform") {
            self.host_platform = Some(value);
        } else if text_eq(key, "firmware_mode") {
            let m = parse_firmware_mode(value.as_str())?;
            self.firmware_mode = Some(m);
        } else if text_eq(key, "partition_style") {
            self.partition_style = Some(parse_partition_style(value.as_str()));
        } else if text_eq(key, "secure_boot_enabled") {
            let b = parse_bool(value.as_str(), key)?;
            self.secure_boot_enabled = Some(b);
        } else if text_eq(key, "bitlocker_detected") {
            let b = parse_bool(value.as_str(), key)?;
            self.bitlocker_detected = Some(b);
        } else if text_eq(key, "esp_volume") {
            self.esp_volume = Some(value);
        } else if text_eq(key, "esp_mount_point") {
            self.esp_mount_point = Some(value);
        } else if text_eq(key, "esp_filesystem") {
            self.esp_filesystem = Some(value);
        } else if text_eq(key, "esp_free_space_mb") {
            match parse_unsigned(value.as_str(), u64::MAX) {
                Some(v) => {
                    self.esp_free_space_mb = Some(v);
                },
                None => {
                    return Err(
                        AppError::new(
                            AppErrorKind::Validation,
                            concat2("invalid esp_free_space_mb value: ", value.as_str()),
                        ),
                    );
                },
            }
        } else if text_eq(key, "warning") {
            let ghost w = value@;
            self.warnings.push(value);
            proof {
                assert(views(self.warnings@) =~= views(old(self).warnings@).push(w));
            }
        } else if text_eq(key, "supported") {
            let b = parse_bool(value.as_str(), key)?;
            self.supported = Some(b);
        }
        Ok(())
    }

    fn apply_line(&mut self, raw: &str) -> (r: Result<(), AppError>)
        ensures
            match probe_line_spec(old(self)@, raw@) {
                Ok(d) => r is Ok && final(self)@ == d,
                Err(m) => r is Err && r->Err_0.is(AppErrorKind::Validation, m),
            },
    {
        let line = trim(raw);
        if line.as_str().is_empty() {
            return Ok(());
        }
        match split_once(line.as_str(), '=') {
            Some((key, value)) => self.apply_pair(key.as_str(), value),
            None => Err(
                AppError::new(
                    AppErrorKind::Validation,
                    concat2("invalid probe output line: ", line.as_str()),
                ),
            ),
        }
    }

    fn finish(self) -> (r: Result<MachineProbe, AppError>)
        ensures
            matches_outcome(r, probe_finish_spec(self@)),
    {
        let host_platform = match self.host_platform {
            Some(h) => h,
            None => String::new(),
        };
        if !text_eq(host_platform.as_str(), "windows") {
            return Err(
                AppError::new(
                    AppErrorKind::Validation,
                    concat2("unexpected host platform from probe output: ", host_platform.as_str()),
                ),
            );
        }
        let firmware_mode = match self.firmware_mode {
            Some(v) => v,
            None => {
                return Err(missing_field("firmware_mode"));
            },
        };
        let partition_style = match self.partition_style {
            Some(v) => v,
            None => {
                return Err(missing_field("partition_style"));
            },
        };
        let secure_boot_enabled = match self.secure_boot_enabled {
            Some(v) => v,
            None => {
                return Err(missing_field("secure_boot_enabled"));
            },
        };
        let bitlocker_detected = match self.bitlocker_detected {
            Some(v) => v,
            None => {
                return Err(missing_field("bitlocker_detected"));
            },
        };
        let volume = match self.esp_volume {
            Some(v) => v,
            None => {
                return Err(missing_field("esp_volume"));
            },
        };
        let mount_point = match self.esp_mount_point {
            Some(v) => v,
            None => {
                return Err(missing_field("esp_mount_point"));
            },
        };
        let filesystem = match self.esp_filesystem {
            Some(v) => v,
            None => {
                return Err(missing_field("esp_filesystem"));
            },
        };
        let free_space_mb = match self.esp_free_space_mb {
            Some(v) => v,
            None => {
                return Err(missing_field("esp_free_space_mb"));
            },
        };
        let supported = match self.supported {
            Some(v) => v,
            None => {
                return Err(missing_field("supported"));
            },
        };
        let probe = MachineProbe {
            host_platform: HostPlatform::Windows,
            firmware_mode,
            partition_style,
            secure_boot_enabled,
            bitlocker_detected,
            esp: EspInfo { volume, mount_point, filesystem, free_space_mb },
            warnings: self.warnings,
            supported,
        };
        assert(probe@ =~= probe_finish_spec(self@)->Ok_0);
        Ok(probe)
    }
}

pub fn parse_probe_output(output: &str) -> (r: Result<MachineProbe, AppError>)
    ensures
        matches_outcome(r, probe_output_spec(output@)),
{
    let lines = split_lines(output);
    let ghost ls = views(lines@);
    let mut draft = ProbeDraft::new();
    let mut i: usize = 0;
    proof {
        assert(ls.skip(0) =~= ls);
    }
    while i < lines.len()
        invariant
            ls == views(lines@),
            ls == lines_spec(output@),
            i <= ls.len(),
            probe_lines_spec(empty_probe_draft(), ls) == probe_lines_spec(draft@, ls.skip(i as int)),
        decreases ls.len() - i,
    {
        proof {
            assert(ls.skip(i as int)[0] == lines@[i as int]@);
            assert(ls.skip(i as int).skip(1) =~= ls.skip(i + 1));
        }
        draft.apply_line(lines[i].as_str())?;
        i += 1;
    }
    proof {
        assert(ls.skip(i as int) =~= Seq::<Seq<char>>::empty());
    }
    draft.finish()
}

}
