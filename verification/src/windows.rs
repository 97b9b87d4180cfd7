//! Windows host conventions: the records the host adapters exchange,
//! probe command outcomes, and the pure rules the adapters follow
//! (mount points, volume tokens, BCD output, robocopy exit codes).

use vstd::prelude::*;
use crate::error::{AppError, AppErrorKind};
use crate::json::views;
use crate::journal::{
    join_path, joined, lemma_joined_ordinary, lemma_word_plain, ordinary_path, plain_component,
};
use crate::lines::lacks;
use crate::model::{EspInfo, MachineProbe};
use crate::plan_file::matches_outcome;
use crate::probe::{parse_probe_output, probe_output_spec};
use crate::text::{
    decimal_spec, push_decimal,
    ascii_lower, chars_of, push_str, string_from_chars, text_eq, to_ascii_lowercase, trim,
    trim_spec,
};
use vstd::utf8::encode_utf8;

verus! {

broadcast use vstd::seq_lib::group_seq_properties;

/// The backup taken before any managed change: where the ESP copy and the
/// exported BCD store were written, and notes on how.
#[derive(Debug, Clone)]
pub struct BackupCheckpoint {
    pub esp_backup_dir: String,
    pub bcd_store_path: String,
    pub notes: Vec<String>,
}

/// Where a WinPE payload was staged.
#[derive(Debug, Clone)]
pub struct WinPeStaging {
    pub stage_root: String,
    pub esp_stage_root: String,
    pub boot_wim_path: String,
    pub boot_sdi_path: String,
    pub boot_sdi_relative_path: String,
    pub target_volume: String,
}

impl WinPeStaging {
    /// A copy of this staging record.
    pub fn duplicate(&self) -> (s: Self)
        ensures
            s == *self,
    {
        WinPeStaging {
            stage_root: self.stage_root.clone(),
            esp_stage_root: self.esp_stage_root.clone(),
            boot_wim_path: self.boot_wim_path.clone(),
            boot_sdi_path: self.boot_sdi_path.clone(),
            boot_sdi_relative_path: self.boot_sdi_relative_path.clone(),
            target_volume: self.target_volume.clone(),
        }
    }
}

/// A boot entry registered in the BCD store.
#[derive(Debug, Clone)]
pub struct BootEntryRegistration {
    pub entry_id: String,
    pub ramdisk_options_id: String,
    pub display_name: String,
}

/// Runs the host probe.
pub struct WindowsProbeAdapter;

/// How running the probe command went, as the host reports it.
pub enum ProbeCommandOutcome {
    /// The host is not Windows, so the probe command was not run.
    NotWindows,
    /// The command ran and failed: its trimmed standard error and exit status.
    Failed { stderr: String, status: String },
    /// The command ran and succeeded: its standard output.
    Succeeded { stdout: String },
}

/// How a host command ended: whether it succeeded, its exit code when it
/// has one, its exit status as the host prints it, and its output.
pub struct CommandOutcome {
    pub success: bool,
    pub code: Option<i32>,
    pub status: String,
    pub stdout: String,
    pub stderr: String,
}

/// The message for a live probe on a non-Windows host.
pub open spec fn non_windows_probe_message() -> Seq<char> {
    "PartBooter live probing only runs on Windows hosts"@
}

/// The message for a failed probe command.
pub open spec fn probe_failure_message(stderr: Seq<char>, status: Seq<char>) -> Seq<char> {
    let detail = trim_spec(stderr);
    if detail.len() == 0 {
        "Windows probe command failed with exit status "@ + status
    } else {
        "Windows probe command failed: "@ + detail
    }
}

impl WindowsProbeAdapter {
    /// The probe result for a probe command outcome: an unsupported
    /// environment off Windows, an I/O error when the command failed, and
    /// otherwise the parsed report.
    pub fn probe(outcome: ProbeCommandOutcome) -> (r: Result<MachineProbe, AppError>)
        ensures
            match outcome {
                ProbeCommandOutcome::NotWindows => r is Err && r->Err_0.is(
                    AppErrorKind::UnsupportedEnvironment,
                    non_windows_probe_message(),
                ),
                ProbeCommandOutcome::Failed { stderr, status } => r is Err && r->Err_0.is(
                    AppErrorKind::Io,
                    probe_failure_message(stderr@, status@),
                ),
                ProbeCommandOutcome::Succeeded { stdout } => matches_outcome(
                    r,
                    probe_output_spec(stdout@),
                ),
            },
    {
        match outcome {
            ProbeCommandOutcome::NotWindows => Err(
                AppError::new(
                    AppErrorKind::UnsupportedEnvironment,
                    "PartBooter live probing only runs on Windows hosts".to_owned(),
                ),
            ),
            ProbeCommandOutcome::Failed { stderr, status } => {
                let detail = trim(stderr.as_str());
                let message = if detail.as_str().is_empty() {
                    let mut m = "Windows probe command failed with exit status ".to_owned();
                    push_str(&mut m, status.as_str());
                    m
                } else {
                    let mut m = "Windows probe command failed: ".to_owned();
                    push_str(&mut m, detail.as_str());
                    m
                };
                Err(AppError::new(AppErrorKind::Io, message))
            },
            ProbeCommandOutcome::Succeeded { stdout } => parse_probe_output(stdout.as_str()),
        }
    }
}

/// Robocopy exit codes 0 to 7 mean success.
pub fn robocopy_succeeded(code: i32) -> (r: bool)
    ensures
        r == (0 <= code <= 7),
{
    0 <= code && code <= 7
}

/// The robocopy arguments for the ESP backup.
pub open spec fn esp_backup_args_spec() -> Seq<Seq<char>> {
    seq![
        "/E"@,
        "/COPY:DAT"@,
        "/R:1"@,
        "/W:1"@,
        "/NFL"@,
        "/NDL"@,
        "/NJH"@,
        "/NJS"@,
        "/NP"@,
        "/XF"@,
        "BCD"@,
        "BCD.LOG"@,
        "BCD.LOG1"@,
        "BCD.LOG2"@,
        "BCD.LOG*"@,
        "BCD.TMP"@,
    ]
}

/// The robocopy arguments for backing up the ESP: copy everything with
/// data, attributes and timestamps, retry once, log quietly, and exclude
/// the live BCD store files, which the BCD export saves separately.
pub fn esp_backup_robocopy_args() -> (args: [&'static str; 16])
    ensures
        args@.map_values(|a: &str| a@) == esp_backup_args_spec(),
{
    let args = [
        "/E",
        "/COPY:DAT",
        "/R:1",
        "/W:1",
        "/NFL",
        "/NDL",
        "/NJH",
        "/NJS",
        "/NP",
        "/XF",
        "BCD",
        "BCD.LOG",
        "BCD.LOG1",
        "BCD.LOG2",
        "BCD.LOG*",
        "BCD.TMP",
    ];
    assert(args@.map_values(|a: &str| a@) =~= esp_backup_args_spec());
    args
}

/// A mount point usable as a copy source: after trimming, at least three
/// bytes long with `:` as its second byte (such as `S:\`).
pub open spec fn usable_mount_point_spec(path: Seq<char>) -> bool {
    let b = encode_utf8(trim_spec(path));
    b.len() >= 3 && b[1] == 0x3a
}

pub fn is_usable_mount_point(path: &str) -> (r: bool)
    ensures
        r == usable_mount_point_spec(path@),
{
    let trimmed = trim(path);
    let bytes = trimmed.as_str().as_bytes();
    bytes.len() >= 3 && bytes[1] == 0x3a
}

/// `path` ending in a path separator, adding `\` when it has none.
pub open spec fn root_path_spec(path: Seq<char>) -> Seq<char> {
    if path.len() > 0 && (path.last() == '\\' || path.last() == '/') {
        path
    } else {
        path.push('\\')
    }
}

pub fn normalize_root_path(path: &str) -> (r: String)
    ensures
        r@ == root_path_spec(path@),
{
    let chars = chars_of(path);
    let n = chars.len();
    let mut r = path.to_owned();
    if n > 0 && (chars[n - 1] == '\\' || chars[n - 1] == '/') {
        r
    } else {
        r.push('\\');
        r
    }
}

/// `s` without any trailing `\` or `/`.
pub open spec fn trim_trailing_separators(s: Seq<char>) -> Seq<char>
    decreases s.len(),
{
    if s.len() > 0 && (s.last() == '\\' || s.last() == '/') {
        trim_trailing_separators(s.drop_last())
    } else {
        s
    }
}

/// The drive token of a volume such as `D:` or `D:\`, or a validation
/// error naming the rejected input.
pub open spec fn volume_token_spec(volume: Seq<char>) -> Result<Seq<char>, Seq<char>> {
    let t = trim_trailing_separators(trim_spec(volume));
    let b = encode_utf8(t);
    if b.len() == 2 && b[1] == 0x3a {
        Ok(t)
    } else {
        Err("invalid target volume; expected a drive root like D:, got "@ + volume)
    }
}

pub fn normalized_volume_token(volume: &str) -> (r: Result<String, AppError>)
    ensures
        match volume_token_spec(volume@) {
            Ok(t) => r is Ok && r->Ok_0@ == t,
            Err(m) => r is Err && r->Err_0.is(AppErrorKind::Validation, m),
        },
{
    let trimmed = trim(volume);
    let chars = chars_of(trimmed.as_str());
    let mut end = chars.len();
    while end > 0 && (chars[end - 1] == '\\' || chars[end - 1] == '/')
        invariant
            end <= chars@.len(),
            chars@ == trim_spec(volume@),
            trim_trailing_separators(chars@) == trim_trailing_separators(chars@.subrange(0, end as int)),
        decreases end,
    {
        proof {
            assert(chars@.subrange(0, end as int).drop_last() =~= chars@.subrange(0, end - 1));
        }
        end -= 1;
    }
    proof {
        assert(chars@.subrange(0, chars@.len() as int) =~= chars@);
    }
    let token = string_from_chars(&chars, 0, end);
    let bytes = token.as_str().as_bytes();
    if bytes.len() == 2 && bytes[1] == 0x3a {
        Ok(token)
    } else {
        let mut m = "invalid target volume; expected a drive root like D:, got ".to_owned();
        push_str(&mut m, volume);
        Err(AppError::new(AppErrorKind::Validation, m))
    }
}

/// The root directory of a volume such as `D:` (`D:\`).
pub fn normalize_volume_root(volume: &str) -> (r: Result<String, AppError>)
    ensures
        match volume_token_spec(volume@) {
            Ok(t) => r is Ok && r->Ok_0@ == t.push('\\'),
            Err(m) => r is Err && r->Err_0.is(AppErrorKind::Validation, m),
        },
{
    let mut token = normalized_volume_token(volume)?;
    token.push('\\');
    Ok(token)
}

/// The volume token of the system drive (`SystemDrive`, `C:` when unset).
pub fn system_volume_token(system_drive: Option<&str>) -> (r: Result<String, AppError>)
    ensures
        match volume_token_spec(
            match system_drive {
                Some(d) => d@,
                None => "C:"@,
            },
        ) {
            Ok(t) => r is Ok && r->Ok_0@ == t,
            Err(m) => r is Err && r->Err_0.is(AppErrorKind::Validation, m),
        },
{
    match system_drive {
        Some(d) => normalized_volume_token(d),
        None => normalized_volume_token("C:"),
    }
}

/// `s` with every `/` replaced by `\`.
pub open spec fn backslashed(s: Seq<char>) -> Seq<char> {
    s.map_values(|c: char| if c == '/' { '\\' } else { c })
}

/// A path below `volume_token\` as the volume-relative path `\rest`, or a
/// validation error when the path is not under that volume.
pub open spec fn volume_relative_spec(path: Seq<char>, volume_token: Seq<char>) -> Result<
    Seq<char>,
    Seq<char>,
> {
    let prefix = volume_token.push('\\');
    if prefix.len() <= path.len() && path.subrange(0, prefix.len() as int) == prefix {
        Ok(seq!['\\'] + backslashed(path.subrange(prefix.len() as int, path.len() as int)))
    } else {
        Err("path "@ + path + " is not rooted under the expected target volume "@ + volume_token)
    }
}

/// A path below `volume_token\` is read relative to that volume: a
/// backslash, then the rest of the path with its slashes turned into
/// backslashes (so a rest without slashes comes back as it is); a path
/// that does not start with `volume_token\` is refused.
pub proof fn volume_relative_paths_keep_the_rest(volume_token: Seq<char>, rest: Seq<char>, other: Seq<char>)
    ensures
        volume_relative_spec(volume_token.push('\\') + rest, volume_token) == Ok::<_, Seq<char>>(
            seq!['\\'] + backslashed(rest),
        ),
        lacks(rest, '/') ==> volume_relative_spec(volume_token.push('\\') + rest, volume_token)
            == Ok::<_, Seq<char>>(seq!['\\'] + rest),
        !(volume_token.push('\\').len() <= other.len() && other.subrange(
            0,
            volume_token.len() + 1int,
        ) == volume_token.push('\\')) ==> volume_relative_spec(other, volume_token) is Err,
{
    let prefix = volume_token.push('\\');
    let path = prefix + rest;
    assert(path.subrange(0, prefix.len() as int) =~= prefix);
    assert(path.subrange(prefix.len() as int, path.len() as int) =~= rest);
    if lacks(rest, '/') {
        assert(backslashed(rest) =~= rest);
    }
}

pub fn windows_volume_relative_path(path: &str, volume_token: &str) -> (r: Result<String, AppError>)
    ensures
        match volume_relative_spec(path@, volume_token@) {
            Ok(t) => r is Ok && r->Ok_0@ == t,
            Err(m) => r is Err && r->Err_0.is(AppErrorKind::Validation, m),
        },
{
    let p = chars_of(path);
    let mut prefix = chars_of(volume_token);
    prefix.push('\\');
    let ghost pre = volume_token@.push('\\');
    let mut is_prefix = prefix.len() <= p.len();
    let mut i: usize = 0;
    if is_prefix {
        while i < prefix.len()
            invariant
                prefix@ == pre,
                p@ == path@,
                prefix@.len() <= p@.len(),
                i <= prefix@.len(),
                is_prefix == (forall|k: int| 0 <= k < i ==> p@[k] == prefix@[k]),
            decreases prefix@.len() - i,
        {
            if p[i] != prefix[i] {
                is_prefix = false;
            }
            i += 1;
        }
        proof {
            if is_prefix {
                assert(path@.subrange(0, pre.len() as int) =~= pre);
            } else {
                let k = choose|k: int| 0 <= k < pre.len() && p@[k] != prefix@[k];
                assert(path@.subrange(0, pre.len() as int)[k] == p@[k]);
            }
        }
    }
    if is_prefix {
        let mut out = String::new();
        out.push('\\');
        let mut j = prefix.len();
        let ghost rest = path@.subrange(pre.len() as int, path@.len() as int);
        while j < p.len()
            invariant
                prefix@.len() <= j <= p@.len(),
                p@ == path@,
                pre == prefix@,
                rest == path@.subrange(pre.len() as int, path@.len() as int),
                out@ =~= seq!['\\'] + backslashed(rest).take(j - prefix@.len()),
            decreases p@.len() - j,
        {
            let c = p[j];
            if c == '/' {
                out.push('\\');
            } else {
                out.push(c);
            }
            proof {
                assert(backslashed(rest).take(j - prefix@.len() + 1) =~= backslashed(rest).take(
                    j - prefix@.len(),
                ).push(if c == '/' { '\\' } else { c }));
            }
            j += 1;
        }
        proof {
            assert(backslashed(rest).take(rest.len() as int) =~= backslashed(rest));
        }
        Ok(out)
    } else {
        proof {
            if pre.len() <= path@.len() {
            }
        }
        let mut m = "path ".to_owned();
        push_str(&mut m, path);
        push_str(&mut m, " is not rooted under the expected target volume ");
        push_str(&mut m, volume_token);
        Err(AppError::new(AppErrorKind::Validation, m))
    }
}

/// The first position at or after `from` where `c` occurs.
pub open spec fn first_at_or_after(s: Seq<char>, c: char, from: int, i: int) -> bool {
    from <= i < s.len() && s[i] == c && forall|k: int| from <= k < i ==> s[k] != c
}

/// The braced identifier in `bcdedit` output: from the first `{` to the
/// first `}` after it, trimmed.
pub open spec fn bcd_guid_spec(output: Seq<char>) -> Result<Seq<char>, Seq<char>> {
    if lacks(output, '{') {
        Err("could not find a GUID in bcdedit output"@)
    } else {
        let start = choose|i: int| first_at_or_after(output, '{', 0, i);
        if forall|k: int| start <= k < output.len() ==> output[k] != '}' {
            Err("could not find the end of the GUID in bcdedit output"@)
        } else {
            let end = choose|i: int| first_at_or_after(output, '}', start, i);
            Ok(trim_spec(output.subrange(start, end + 1)))
        }
    }
}

fn find_char(chars: &Vec<char>, c: char, from: usize) -> (r: Option<usize>)
    requires
        from <= chars@.len(),
    ensures
        match r {
            Some(i) => first_at_or_after(chars@, c, from as int, i as int),
            None => forall|k: int| from <= k < chars@.len() ==> chars@[k] != c,
        },
{
    let mut i = from;
    while i < chars.len()
        invariant
            from <= i <= chars@.len(),
            forall|k: int| from <= k < i ==> chars@[k] != c,
        decreases chars@.len() - i,
    {
        if chars[i] == c {
            return Some(i);
        }
        i += 1;
    }
    None
}

pub fn parse_guid_from_bcd_output(output: &str) -> (r: Result<String, AppError>)
    ensures
        match bcd_guid_spec(output@) {
            Ok(t) => r is Ok && r->Ok_0@ == t,
            Err(m) => r is Err && r->Err_0.is(AppErrorKind::Validation, m),
        },
{
    let chars = chars_of(output);
    let start = match find_char(&chars, '{', 0) {
        Some(i) => i,
        None => {
            return Err(
                AppError::new(
                    AppErrorKind::Validation,
                    "could not find a GUID in bcdedit output".to_owned(),
                ),
            );
        },
    };
    proof {
        assert(!lacks(output@, '{'));
        let s = choose|i: int| first_at_or_after(output@, '{', 0, i);
        if s < start {
        } else if s > start {
            assert(output@[start as int] == '{');
        }
        assert(s == start);
    }
    let end = match find_char(&chars, '}', start) {
        Some(i) => i,
        None => {
            return Err(
                AppError::new(
                    AppErrorKind::Validation,
                    "could not find the end of the GUID in bcdedit output".to_owned(),
                ),
            );
        },
    };
    proof {
        let e = choose|i: int| first_at_or_after(output@, '}', start as int, i);
        assert(first_at_or_after(output@, '}', start as int, end as int));
        if e < end {
        } else if e > end {
            assert(output@[end as int] == '}');
        }
        assert(e == end);
    }
    let guid = string_from_chars(&chars, start, end + 1);
    Ok(trim(guid.as_str()))
}

/// The two outputs of a command joined for an error message: whichever is
/// non-empty after trimming, both separated by ` | `, or nothing.
pub open spec fn command_output_spec(stdout: Seq<char>, stderr: Seq<char>) -> Seq<char> {
    let out = trim_spec(stdout);
    let err = trim_spec(stderr);
    if out.len() == 0 && err.len() == 0 {
        Seq::<char>::empty()
    } else if err.len() == 0 {
        out
    } else if out.len() == 0 {
        err
    } else {
        out + " | "@ + err
    }
}

pub fn join_command_output(stdout: &str, stderr: &str) -> (r: String)
    ensures
        r@ == command_output_spec(stdout@, stderr@),
{
    let out = trim(stdout);
    let err = trim(stderr);
    match (out.as_str().is_empty(), err.as_str().is_empty()) {
        (true, true) => String::new(),
        (false, true) => out,
        (true, false) => err,
        (false, false) => {
            let mut r = out;
            push_str(&mut r, " | ");
            push_str(&mut r, err.as_str());
            r
        },
    }
}

/// The fixed identifier of the shared ramdisk options object.
pub open spec fn ramdisk_options_id_spec() -> Seq<char> {
    "{ramdiskoptions}"@
}

/// Whether removing a boot entry also deletes its ramdisk options object:
/// only when it is not the shared one (compared ignoring ASCII case).
pub fn removes_ramdisk_options(ramdisk_options_id: &str) -> (r: bool)
    ensures
        r == (ascii_lower(ramdisk_options_id@) != ascii_lower(ramdisk_options_id_spec())),
{
    let a = to_ascii_lowercase(ramdisk_options_id);
    let b = to_ascii_lowercase("{ramdiskoptions}");
    !text_eq(a.as_str(), b.as_str())
}

/// The ramdisk device settings tried in order when registering a WinPE
/// entry: first on the staging volume, then on the boot device.
pub open spec fn ramdisk_candidates_spec(
    volume_token: Seq<char>,
    wim_path: Seq<char>,
    options_id: Seq<char>,
) -> Seq<Seq<char>> {
    seq![
        "ramdisk=["@ + volume_token + seq![']'] + wim_path + seq![','] + options_id,
        "ramdisk=[boot]"@ + wim_path + seq![','] + options_id,
    ]
}

pub fn ramdisk_device_candidates(volume_token: &str, wim_path: &str, options_id: &str) -> (r: Vec<
    String,
>)
    ensures
        views(r@) == ramdisk_candidates_spec(volume_token@, wim_path@, options_id@),
{
    let mut first = "ramdisk=[".to_owned();
    push_str(&mut first, volume_token);
    first.push(']');
    push_str(&mut first, wim_path);
    first.push(',');
    push_str(&mut first, options_id);
    let mut second = "ramdisk=[boot]".to_owned();
    push_str(&mut second, wim_path);
    second.push(',');
    push_str(&mut second, options_id);
    assert(first@ =~= "ramdisk=["@ + volume_token@ + seq![']'] + wim_path@ + seq![','] + options_id@);
    assert(second@ =~= "ramdisk=[boot]"@ + wim_path@ + seq![','] + options_id@);
    let r = vec![first, second];
    assert(views(r@) =~= ramdisk_candidates_spec(volume_token@, wim_path@, options_id@));
    r
}


/// The host work that only runs on Windows.
#[derive(Debug, Clone, Copy, PartialEq, Eq, Structural)]
pub enum WindowsOperation {
    BackupCheckpoint,
    WinPeStaging,
    EntryRegistration,
    EntryVerification,
    EntryRemoval,
    StagedPayloadCleanup,
    BootConfigRestore,
}

/// The message refusing `op` on a host that is not Windows.
pub open spec fn off_windows_message(op: WindowsOperation) -> Seq<char> {
    match op {
        WindowsOperation::BackupCheckpoint => "PartBooter backup checkpointing only runs on Windows hosts"@,
        WindowsOperation::WinPeStaging => "PartBooter WinPE staging only runs on Windows hosts"@,
        WindowsOperation::EntryRegistration => "PartBooter WinPE boot entry registration only runs on Windows hosts"@,
        WindowsOperation::EntryVerification => "PartBooter BCD verification only runs on Windows hosts"@,
        WindowsOperation::EntryRemoval => "PartBooter BCD rollback only runs on Windows hosts"@,
        WindowsOperation::StagedPayloadCleanup => "PartBooter staged-payload cleanup only runs on Windows hosts"@,
        WindowsOperation::BootConfigRestore => "PartBooter BCD restore only runs on Windows hosts"@,
    }
}

/// The error refusing `op` on a host that is not Windows.
pub fn off_windows_error(op: WindowsOperation) -> (e: AppError)
    ensures
        e.is(AppErrorKind::UnsupportedEnvironment, off_windows_message(op)),
{
    let m = match op {
        WindowsOperation::BackupCheckpoint => "PartBooter backup checkpointing only runs on Windows hosts",
        WindowsOperation::WinPeStaging => "PartBooter WinPE staging only runs on Windows hosts",
        WindowsOperation::EntryRegistration => "PartBooter WinPE boot entry registration only runs on Windows hosts",
        WindowsOperation::EntryVerification => "PartBooter BCD verification only runs on Windows hosts",
        WindowsOperation::EntryRemoval => "PartBooter BCD rollback only runs on Windows hosts",
        WindowsOperation::StagedPayloadCleanup => "PartBooter staged-payload cleanup only runs on Windows hosts",
        WindowsOperation::BootConfigRestore => "PartBooter BCD restore only runs on Windows hosts",
    };
    AppError::new(AppErrorKind::UnsupportedEnvironment, m.to_owned())
}

/// The decimal numeral of a signed number, with `-` before a negative one.
pub open spec fn signed_decimal_spec(n: int) -> Seq<char> {
    if n < 0 {
        seq!['-'] + decimal_spec((-n) as nat)
    } else {
        decimal_spec(n as nat)
    }
}

/// Appends the decimal numeral of `n` to `out`.
pub fn push_signed_decimal(out: &mut String, n: i32)
    ensures
        final(out)@ == old(out)@ + signed_decimal_spec(n as int),
{
    if n < 0 {
        out.push('-');
        let magnitude: i64 = -(n as i64);
        push_decimal(out, magnitude as u64);
        assert(final(out)@ =~= old(out)@ + signed_decimal_spec(n as int));
    } else {
        push_decimal(out, n as u64);
    }
}

/// The error for a robocopy run that did not succeed.
pub fn robocopy_failure_error(code: i32) -> (e: AppError)
    ensures
        e.is(
            AppErrorKind::Io,
            "robocopy failed while backing up the ESP with exit code "@ + signed_decimal_spec(
                code as int,
            ),
        ),
{
    let mut m = "robocopy failed while backing up the ESP with exit code ".to_owned();
    push_signed_decimal(&mut m, code);
    AppError::new(AppErrorKind::Io, m)
}

/// The error for a `bcdedit` run that failed: the action it attempted, its
/// exit status and, when there is any, its joined output.
pub open spec fn bcdedit_failure_message(action: Seq<char>, status: Seq<char>, detail: Seq<char>) -> Seq<char> {
    if detail.len() == 0 {
        "bcdedit failed to "@ + action + " with exit status "@ + status
    } else {
        "bcdedit failed to "@ + action + " with exit status "@ + status + ": "@ + detail
    }
}

pub fn bcdedit_failure_error(action: &str, status: &str, detail: &str) -> (e: AppError)
    ensures
        e.is(AppErrorKind::Io, bcdedit_failure_message(action@, status@, detail@)),
{
    let mut m = "bcdedit failed to ".to_owned();
    push_str(&mut m, action);
    push_str(&mut m, " with exit status ");
    push_str(&mut m, status);
    if !detail.is_empty() {
        push_str(&mut m, ": ");
        push_str(&mut m, detail);
    }
    AppError::new(AppErrorKind::Io, m)
}

/// The notes recorded with a backup checkpoint.
pub open spec fn checkpoint_notes_spec() -> Seq<Seq<char>> {
    seq![
        "ESP backup created with robocopy; live BCD files were excluded because bcdedit exported the store separately."@,
        "BCD snapshot exported with bcdedit."@,
    ]
}

/// The checkpoint taken into `esp_backup_dir` and `bcd_store_path`.
pub fn backup_checkpoint(esp_backup_dir: String, bcd_store_path: String) -> (c: BackupCheckpoint)
    ensures
        c.esp_backup_dir == esp_backup_dir,
        c.bcd_store_path == bcd_store_path,
        views(c.notes@) == checkpoint_notes_spec(),
{
    let notes = vec![
        "ESP backup created with robocopy; live BCD files were excluded because bcdedit exported the store separately.".to_owned(),
        "BCD snapshot exported with bcdedit.".to_owned(),
    ];
    assert(views(notes@) =~= checkpoint_notes_spec());
    BackupCheckpoint { esp_backup_dir, bcd_store_path, notes }
}

/// The drive letters tried, in order, for mounting the ESP temporarily.
pub fn temporary_drive_letters() -> (letters: [char; 7])
    ensures
        letters@ == seq!['Z', 'Y', 'X', 'W', 'V', 'U', 'T'],
{
    let letters = ['Z', 'Y', 'X', 'W', 'V', 'U', 'T'];
    assert(letters@ =~= seq!['Z', 'Y', 'X', 'W', 'V', 'U', 'T']);
    letters
}

/// The root directory of a drive letter (`T:\`).
pub fn drive_root(letter: char) -> (r: String)
    ensures
        r@ == seq![letter, ':', '\\'],
{
    let mut r = String::new();
    r.push(letter);
    r.push(':');
    r.push('\\');
    r
}

/// The places `boot.sdi` is looked for below the Windows directory, in
/// order.
pub open spec fn boot_sdi_candidates_spec(windir: Seq<char>) -> Seq<Seq<char>> {
    seq![
        windir + "\\Boot\\DVD\\EFI\\boot.sdi"@,
        windir + "\\Boot\\DVD\\PCAT\\boot.sdi"@,
        windir + "\\Boot\\PXE\\boot.sdi"@,
        windir + "\\System32\\Recovery\\boot.sdi"@,
    ]
}

pub fn boot_sdi_candidates(windir: &str) -> (r: Vec<String>)
    ensures
        views(r@) == boot_sdi_candidates_spec(windir@),
{
    let mut a = windir.to_owned();
    push_str(&mut a, "\\Boot\\DVD\\EFI\\boot.sdi");
    let mut b = windir.to_owned();
    push_str(&mut b, "\\Boot\\DVD\\PCAT\\boot.sdi");
    let mut c = windir.to_owned();
    push_str(&mut c, "\\Boot\\PXE\\boot.sdi");
    let mut d = windir.to_owned();
    push_str(&mut d, "\\System32\\Recovery\\boot.sdi");
    let r = vec![a, b, c, d];
    assert(views(r@) =~= boot_sdi_candidates_spec(windir@));
    r
}

/// The staged WinPE layout below the drive `t`: `EFI\PartBooter` below the
/// root of `t` holds `boot.wim` and `boot.sdi`; the ESP stage root is that
/// same directory, and the entry's target volume is `t`.
pub open spec fn staged_below(s: WinPeStaging, t: Seq<char>) -> bool {
    &&& s.target_volume@ == t
    &&& s.esp_stage_root == s.stage_root
    &&& s.boot_sdi_relative_path@ == "\\EFI\\PartBooter\\boot.sdi"@
    &&& ordinary_path(t) ==> {
        &&& exists|efi: Seq<char>| #[trigger]
            joined(t.push('\\'), "EFI"@, efi) && joined(efi, "PartBooter"@, s.stage_root@)
        &&& joined(s.stage_root@, "boot.wim"@, s.boot_wim_path@)
        &&& joined(s.stage_root@, "boot.sdi"@, s.boot_sdi_path@)
    }
}

/// The first of the temporary drive letters, from position `i` on, that
/// `in_use` marks free; a letter past the end of `in_use` counts as taken.
pub open spec fn free_letter_from(in_use: Seq<bool>, i: int) -> Option<char>
    decreases 7 - i,
{
    if i < 0 || i >= 7 || i >= in_use.len() {
        None
    } else if !in_use[i] {
        Some(seq!['Z', 'Y', 'X', 'W', 'V', 'U', 'T'][i])
    } else {
        free_letter_from(in_use, i + 1)
    }
}

/// The message when no temporary drive letter is free for the ESP.
pub open spec fn no_free_letter_message() -> Seq<char> {
    "unable to find a temporary drive letter for mounting the ESP"@
}

/// The layout below the drive `token`.
fn staging_below(token: String) -> (s: WinPeStaging)
    ensures
        staged_below(s, token@),
{
    let mut root = token.clone();
    root.push('\\');
    proof {
        reveal_strlit("EFI");
        reveal_strlit("PartBooter");
        reveal_strlit("boot.wim");
        reveal_strlit("boot.sdi");
        assert(plain_component("EFI"@));
        assert(plain_component("PartBooter"@));
        lemma_word_plain("boot.wim"@);
        lemma_word_plain("boot.sdi"@);
    }
    let efi = join_path(root.as_str(), "EFI");
    let stage_root = join_path(efi.as_str(), "PartBooter");
    proof {
        if ordinary_path(token@) {
            assert(ordinary_path(root@)) by {
                assert forall|i: int| 0 <= i < root@.len() implies #[trigger] root@[i] != '?' by {
                    if i < token@.len() {
                        assert(root@[i] == token@[i]);
                    }
                }
            }
            lemma_joined_ordinary(root@, "EFI"@, efi@);
            lemma_joined_ordinary(efi@, "PartBooter"@, stage_root@);
        }
    }
    let boot_wim_path = join_path(stage_root.as_str(), "boot.wim");
    let boot_sdi_path = join_path(stage_root.as_str(), "boot.sdi");
    WinPeStaging {
        esp_stage_root: stage_root.clone(),
        stage_root,
        boot_wim_path,
        boot_sdi_path,
        boot_sdi_relative_path: "\\EFI\\PartBooter\\boot.sdi".to_owned(),
        target_volume: token,
    }
}

/// The staged WinPE layout in the PartBooter-managed area of the existing
/// ESP, `EFI\PartBooter` on the drive the ESP is reached through.
/// An ESP with a drive-letter mount point is reached through that drive,
/// and nothing is to be mounted. Otherwise the ESP is to be mounted on the
/// first temporary drive letter that `letters_in_use` marks free (its
/// `k`-th entry tells whether the `k`-th of `Z Y X W V U T` is taken), and
/// that letter comes back beside the layout; with none free, the staging
/// fails with an I/O error.
pub fn winpe_staging_layout(esp: &EspInfo, letters_in_use: &Vec<bool>) -> (r: Result<
    (WinPeStaging, Option<char>),
    AppError,
>)
    ensures
        match volume_token_spec(esp.mount_point@) {
            Ok(t) => r matches Ok((s, m)) && m is None && staged_below(s, t),
            Err(_) => match free_letter_from(letters_in_use@, 0) {
                Some(l) => r matches Ok((s, m)) && m == Some(l) && staged_below(s, seq![l, ':']),
                None => r is Err && r->Err_0.is(AppErrorKind::Io, no_free_letter_message()),
            },
        },
{
    match normalized_volume_token(esp.mount_point.as_str()) {
        Ok(token) => Ok((staging_below(token), None)),
        Err(_) => {
            let letters = temporary_drive_letters();
            let mut k: usize = 0;
            while k < 7 && k < letters_in_use.len() && letters_in_use[k]
                invariant
                    k <= 7,
                    letters@ == seq!['Z', 'Y', 'X', 'W', 'V', 'U', 'T'],
                    free_letter_from(letters_in_use@, 0) == free_letter_from(
                        letters_in_use@,
                        k as int,
                    ),
                decreases 7 - k,
            {
                k += 1;
            }
            if k == 7 || k >= letters_in_use.len() {
                Err(
                    AppError::new(
                        AppErrorKind::Io,
                        "unable to find a temporary drive letter for mounting the ESP".to_owned(),
                    ),
                )
            } else {
                let letter = letters[k];
                let mut token = String::new();
                token.push(letter);
                token.push(':');
                assert(token@ =~= seq![letter, ':']);
                Ok((staging_below(token), Some(letter)))
            }
        },
    }
}

}
