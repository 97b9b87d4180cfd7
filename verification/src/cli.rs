//! The command lines of the operator tool and of the privileged helper:
//! which command an argument list asks for, and the usage errors.

use vstd::prelude::*;
use crate::error::{AppError, AppErrorKind};
use crate::json::{bool_spec, bool_value, views};
use crate::model::{ExecutionPlan, ExecutionPlanView, MachineProbe, MachineProbeView};
use crate::text::{push_str, text_eq};

verus! {

/// The value after the first occurrence of `flag`, if there is one and
/// something follows it.
pub open spec fn flag_value_spec(args: Seq<Seq<char>>, flag: Seq<char>) -> Option<Seq<char>>
    decreases args.len(),
{
    if args.len() == 0 {
        None
    } else if args[0] == flag {
        if args.len() > 1 {
            Some(args[1])
        } else {
            None
        }
    } else {
        flag_value_spec(args.drop_first(), flag)
    }
}

/// The value of a flag in an argument list.
pub fn optional_flag_value(args: &Vec<String>, flag: &str) -> (r: Option<String>)
    ensures
        match flag_value_spec(views(args@), flag@) {
            Some(v) => r matches Some(s) && s@ == v,
            None => r is None,
        },
{
    let ghost all = views(args@);
    let mut i: usize = 0;
    assert(all.skip(0) =~= all);
    while i < args.len()
        invariant
            i <= args@.len(),
            all == views(args@),
            flag_value_spec(all, flag@) == flag_value_spec(all.skip(i as int), flag@),
        decreases args@.len() - i,
    {
        proof {
            assert(all.skip(i as int).drop_first() =~= all.skip(i + 1));
        }
        if text_eq(args[i].as_str(), flag) {
            if i + 1 < args.len() {
                return Some(args[i + 1].clone());
            } else {
                return None;
            }
        }
        i += 1;
    }
    None
}

/// Whether `flag` occurs in an argument list.
pub fn has_flag(args: &Vec<String>, flag: &str) -> (r: bool)
    ensures
        r == views(args@).contains(flag@),
{
    let ghost all = views(args@);
    let mut i: usize = 0;
    while i < args.len()
        invariant
            i <= args@.len(),
            all == views(args@),
            forall|j: int| 0 <= j < i ==> all[j] != flag@,
        decreases args@.len() - i,
    {
        if text_eq(args[i].as_str(), flag) {
            assert(all[i as int] == flag@);
            return true;
        }
        i += 1;
    }
    false
}

/// The message for a missing required flag of the operator tool.
pub open spec fn missing_flag_message(flag: Seq<char>) -> Seq<char> {
    "missing required flag "@ + flag + "; run with a supported command signature"@
}

/// The message for a missing required flag of the helper.
pub open spec fn helper_missing_flag_message(flag: Seq<char>) -> Seq<char> {
    "missing required flag "@ + flag
}

/// The usage summary of the operator tool.
pub open spec fn usage_message() -> Seq<char> {
    "usage: partbooter probe [--json] | plan --payload <path> --target <volume> [--json] [--out <file>] | apply --plan <file> | verify --operation <id> | rollback --operation <id> | repair --latest"@
}

/// The usage summary of the helper.
pub open spec fn helper_usage_message() -> Seq<char> {
    "usage: partbooter-helper execute-plan --plan <file> | verify --operation <id> | rollback --operation <id> | repair --latest"@
}

/// The message for `repair` without `--latest`.
pub open spec fn repair_latest_message() -> Seq<char> {
    "repair currently requires --latest"@
}

/// The value of a flag the operator tool requires.
pub fn get_flag_value(args: &Vec<String>, flag: &str) -> (r: Result<String, AppError>)
    ensures
        match flag_value_spec(views(args@), flag@) {
            Some(v) => r matches Ok(s) && s@ == v,
            None => r matches Err(e) && e.is(AppErrorKind::Usage, missing_flag_message(flag@)),
        },
{
    match optional_flag_value(args, flag) {
        Some(v) => Ok(v),
        None => {
            let mut m = "missing required flag ".to_owned();
            push_str(&mut m, flag);
            push_str(&mut m, "; run with a supported command signature");
            Err(AppError::new(AppErrorKind::Usage, m))
        },
    }
}

/// The value of a flag the helper requires.
pub fn get_helper_flag_value(args: &Vec<String>, flag: &str) -> (r: Result<String, AppError>)
    ensures
        match flag_value_spec(views(args@), flag@) {
            Some(v) => r matches Ok(s) && s@ == v,
            None => r matches Err(e) && e.is(AppErrorKind::Usage, helper_missing_flag_message(flag@)),
        },
{
    match optional_flag_value(args, flag) {
        Some(v) => Ok(v),
        None => {
            let mut m = "missing required flag ".to_owned();
            push_str(&mut m, flag);
            Err(AppError::new(AppErrorKind::Usage, m))
        },
    }
}

/// The usage error of the operator tool.
pub fn usage_error() -> (e: AppError)
    ensures
        e.is(AppErrorKind::Usage, usage_message()),
{
    AppError::new(
        AppErrorKind::Usage,
        "usage: partbooter probe [--json] | plan --payload <path> --target <volume> [--json] [--out <file>] | apply --plan <file> | verify --operation <id> | rollback --operation <id> | repair --latest".to_owned(),
    )
}

/// The usage error of the helper.
pub fn helper_usage_error() -> (e: AppError)
    ensures
        e.is(AppErrorKind::Usage, helper_usage_message()),
{
    AppError::new(
        AppErrorKind::Usage,
        "usage: partbooter-helper execute-plan --plan <file> | verify --operation <id> | rollback --operation <id> | repair --latest".to_owned(),
    )
}

/// A command of the operator tool.
pub enum CliCommand {
    Probe { json: bool },
    Plan { payload: String, target: String, json: bool, out: Option<String> },
    Apply { plan_path: String },
    Verify { operation_id: String },
    Rollback { operation_id: String },
    Repair,
}

/// A command of the operator tool, with its texts as character sequences.
pub enum CliCommandView {
    Probe { json: bool },
    Plan { payload: Seq<char>, target: Seq<char>, json: bool, out: Option<Seq<char>> },
    Apply { plan_path: Seq<char> },
    Verify { operation_id: Seq<char> },
    Rollback { operation_id: Seq<char> },
    Repair,
}

impl View for CliCommand {
    type V = CliCommandView;

    open spec fn view(&self) -> CliCommandView {
        match self {
            CliCommand::Probe { json } => CliCommandView::Probe { json: *json },
            CliCommand::Plan { payload, target, json, out } => CliCommandView::Plan {
                payload: payload@,
                target: target@,
                json: *json,
                out: match out {
                    Some(o) => Some(o@),
                    None => None,
                },
            },
            CliCommand::Apply { plan_path } => CliCommandView::Apply { plan_path: plan_path@ },
            CliCommand::Verify { operation_id } => CliCommandView::Verify {
                operation_id: operation_id@,
            },
            CliCommand::Rollback { operation_id } => CliCommandView::Rollback {
                operation_id: operation_id@,
            },
            CliCommand::Repair => CliCommandView::Repair,
        }
    }
}

/// The command an operator argument list (without the program name) asks
/// for, or the usage message that refuses it.
pub open spec fn cli_spec(args: Seq<Seq<char>>) -> Result<CliCommandView, Seq<char>> {
    if args.len() == 0 {
        Err(usage_message())
    } else if args[0] == "probe"@ {
        Ok(CliCommandView::Probe { json: args.contains("--json"@) })
    } else if args[0] == "plan"@ {
        match flag_value_spec(args, "--payload"@) {
            None => Err(missing_flag_message("--payload"@)),
            Some(payload) => match flag_value_spec(args, "--target"@) {
                None => Err(missing_flag_message("--target"@)),
                Some(target) => Ok(
                    CliCommandView::Plan {
                        payload,
                        target,
                        json: args.contains("--json"@),
                        out: flag_value_spec(args, "--out"@),
                    },
                ),
            },
        }
    } else if args[0] == "apply"@ {
        match flag_value_spec(args, "--plan"@) {
            None => Err(missing_flag_message("--plan"@)),
            Some(plan_path) => Ok(CliCommandView::Apply { plan_path }),
        }
    } else if args[0] == "verify"@ || args[0] == "rollback"@ {
        match flag_value_spec(args, "--operation"@) {
            None => Err(missing_flag_message("--operation"@)),
            Some(operation_id) => Ok(
                if args[0] == "verify"@ {
                    CliCommandView::Verify { operation_id }
                } else {
                    CliCommandView::Rollback { operation_id }
                },
            ),
        }
    } else if args[0] == "repair"@ {
        if args.contains("--latest"@) {
            Ok(CliCommandView::Repair)
        } else {
            Err(repair_latest_message())
        }
    } else {
        Err(usage_message())
    }
}

/// Reads the operator tool's arguments (without the program name).
pub fn parse_cli_args(args: &Vec<String>) -> (r: Result<CliCommand, AppError>)
    ensures
        match cli_spec(views(args@)) {
            Ok(c) => r matches Ok(cmd) && cmd@ == c,
            Err(m) => r matches Err(e) && e.is(AppErrorKind::Usage, m),
        },
{
    if args.len() == 0 {
        return Err(usage_error());
    }
    let command = args[0].as_str();
    if text_eq(command, "probe") {
        Ok(CliCommand::Probe { json: has_flag(args, "--json") })
    } else if text_eq(command, "plan") {
        let payload = get_flag_value(args, "--payload")?;
        let target = get_flag_value(args, "--target")?;
        let json = has_flag(args, "--json");
        let out = optional_flag_value(args, "--out");
        Ok(CliCommand::Plan { payload, target, json, out })
    } else if text_eq(command, "apply") {
        let plan_path = get_flag_value(args, "--plan")?;
        Ok(CliCommand::Apply { plan_path })
    } else if text_eq(command, "verify") {
        let operation_id = get_flag_value(args, "--operation")?;
        Ok(CliCommand::Verify { operation_id })
    } else if text_eq(command, "rollback") {
        let operation_id = get_flag_value(args, "--operation")?;
        Ok(CliCommand::Rollback { operation_id })
    } else if text_eq(command, "repair") {
        if has_flag(args, "--latest") {
            Ok(CliCommand::Repair)
        } else {
            Err(
                AppError::new(
                    AppErrorKind::Usage,
                    "repair currently requires --latest".to_owned(),
                ),
            )
        }
    } else {
        Err(usage_error())
    }
}

/// A command of the helper.
pub enum HelperCommand {
    ExecutePlan { plan_path: String },
    Verify { operation_id: String },
    Rollback { operation_id: String },
    Repair,
}

/// A command of the helper, with its texts as character sequences.
pub enum HelperCommandView {
    ExecutePlan { plan_path: Seq<char> },
    Verify { operation_id: Seq<char> },
    Rollback { operation_id: Seq<char> },
    Repair,
}

impl View for HelperCommand {
    type V = HelperCommandView;

    open spec fn view(&self) -> HelperCommandView {
        match self {
            HelperCommand::ExecutePlan { plan_path } => HelperCommandView::ExecutePlan {
                plan_path: plan_path@,
            },
            HelperCommand::Verify { operation_id } => HelperCommandView::Verify {
                operation_id: operation_id@,
            },
            HelperCommand::Rollback { operation_id } => HelperCommandView::Rollback {
                operation_id: operation_id@,
            },
            HelperCommand::Repair => HelperCommandView::Repair,
        }
    }
}

/// The command a helper argument list (without the program name) asks
/// for, or the usage message that refuses it.
pub open spec fn helper_spec(args: Seq<Seq<char>>) -> Result<HelperCommandView, Seq<char>> {
    if args.len() == 0 {
        Err(helper_usage_message())
    } else if args[0] == "execute-plan"@ {
        match flag_value_spec(args, "--plan"@) {
            None => Err(helper_missing_flag_message("--plan"@)),
            Some(plan_path) => Ok(HelperCommandView::ExecutePlan { plan_path }),
        }
    } else if args[0] == "verify"@ || args[0] == "rollback"@ {
        match flag_value_spec(args, "--operation"@) {
            None => Err(helper_missing_flag_message("--operation"@)),
            Some(operation_id) => Ok(
                if args[0] == "verify"@ {
                    HelperCommandView::Verify { operation_id }
                } else {
                    HelperCommandView::Rollback { operation_id }
                },
            ),
        }
    } else if args[0] == "repair"@ {
        if args.contains("--latest"@) {
            Ok(HelperCommandView::Repair)
        } else {
            Err(repair_latest_message())
        }
    } else {
        Err(helper_usage_message())
    }
}

proof fn lemma_command_words_differ()
    ensures
        "probe"@ != "plan"@,
        "probe"@ != "apply"@,
        "probe"@ != "verify"@,
        "probe"@ != "rollback"@,
        "probe"@ != "repair"@,
        "plan"@ != "apply"@,
        "plan"@ != "verify"@,
        "plan"@ != "rollback"@,
        "plan"@ != "repair"@,
        "apply"@ != "verify"@,
        "apply"@ != "rollback"@,
        "apply"@ != "repair"@,
        "verify"@ != "rollback"@,
        "verify"@ != "repair"@,
        "rollback"@ != "repair"@,
        "execute-plan"@ != "verify"@,
        "execute-plan"@ != "rollback"@,
        "execute-plan"@ != "repair"@,
        "verify"@ != "--operation"@,
        "rollback"@ != "--operation"@,
{
    reveal_strlit("probe");
    reveal_strlit("plan");
    reveal_strlit("apply");
    reveal_strlit("verify");
    reveal_strlit("rollback");
    reveal_strlit("repair");
    reveal_strlit("execute-plan");
    reveal_strlit("--operation");
    assert("probe"@.len() != "plan"@.len());
    assert("probe"@[0] != "apply"@[0]);
    assert("probe"@.len() != "verify"@.len());
    assert("probe"@.len() != "rollback"@.len());
    assert("probe"@.len() != "repair"@.len());
    assert("plan"@.len() != "apply"@.len());
    assert("plan"@.len() != "verify"@.len());
    assert("plan"@.len() != "rollback"@.len());
    assert("plan"@.len() != "repair"@.len());
    assert("apply"@.len() != "verify"@.len());
    assert("apply"@.len() != "rollback"@.len());
    assert("apply"@.len() != "repair"@.len());
    assert("verify"@.len() != "rollback"@.len());
    assert("verify"@[0] != "repair"@[0]);
    assert("rollback"@.len() != "repair"@.len());
    assert("execute-plan"@.len() != "verify"@.len());
    assert("execute-plan"@.len() != "rollback"@.len());
    assert("execute-plan"@.len() != "repair"@.len());
    assert("verify"@.len() != "--operation"@.len());
    assert("rollback"@.len() != "--operation"@.len());
}

/// Every command the operator tool reads is the one its first word names,
/// carrying the values that follow its flags.
pub proof fn cli_commands_follow_their_first_word(args: Seq<Seq<char>>)
    ensures
        cli_spec(args) matches Ok(c) ==> args.len() > 0 && match c {
            CliCommandView::Probe { json } => args[0] == "probe"@ && json == args.contains(
                "--json"@,
            ),
            CliCommandView::Plan { payload, target, json, out } => args[0] == "plan"@
                && flag_value_spec(args, "--payload"@) == Some(payload) && flag_value_spec(
                args,
                "--target"@,
            ) == Some(target) && json == args.contains("--json"@) && out == flag_value_spec(
                args,
                "--out"@,
            ),
            CliCommandView::Apply { plan_path } => args[0] == "apply"@ && flag_value_spec(
                args,
                "--plan"@,
            ) == Some(plan_path),
            CliCommandView::Verify { operation_id } => args[0] == "verify"@ && flag_value_spec(
                args,
                "--operation"@,
            ) == Some(operation_id),
            CliCommandView::Rollback { operation_id } => args[0] == "rollback"@
                && flag_value_spec(args, "--operation"@) == Some(operation_id),
            CliCommandView::Repair => args[0] == "repair"@ && args.contains("--latest"@),
        },
{
    lemma_command_words_differ();
}

/// The helper likewise runs the command its first word names.
pub proof fn helper_commands_follow_their_first_word(args: Seq<Seq<char>>)
    ensures
        helper_spec(args) matches Ok(c) ==> args.len() > 0 && match c {
            HelperCommandView::ExecutePlan { plan_path } => args[0] == "execute-plan"@
                && flag_value_spec(args, "--plan"@) == Some(plan_path),
            HelperCommandView::Verify { operation_id } => args[0] == "verify"@ && flag_value_spec(
                args,
                "--operation"@,
            ) == Some(operation_id),
            HelperCommandView::Rollback { operation_id } => args[0] == "rollback"@
                && flag_value_spec(args, "--operation"@) == Some(operation_id),
            HelperCommandView::Repair => args[0] == "repair"@ && args.contains("--latest"@),
        },
{
    lemma_command_words_differ();
}

/// `verify --operation X` and `rollback --operation X`, whatever follows,
/// ask the operator tool and the helper to verify, or to roll back, the
/// operation `X`.
pub proof fn operation_commands_name_their_operation(id: Seq<char>, rest: Seq<Seq<char>>)
    ensures
        cli_spec(seq!["verify"@, "--operation"@, id] + rest) == Ok::<_, Seq<char>>(
            CliCommandView::Verify { operation_id: id },
        ),
        cli_spec(seq!["rollback"@, "--operation"@, id] + rest) == Ok::<_, Seq<char>>(
            CliCommandView::Rollback { operation_id: id },
        ),
        helper_spec(seq!["verify"@, "--operation"@, id] + rest) == Ok::<_, Seq<char>>(
            HelperCommandView::Verify { operation_id: id },
        ),
        helper_spec(seq!["rollback"@, "--operation"@, id] + rest) == Ok::<_, Seq<char>>(
            HelperCommandView::Rollback { operation_id: id },
        ),
{
    lemma_command_words_differ();
    let v = seq!["verify"@, "--operation"@, id] + rest;
    let r = seq!["rollback"@, "--operation"@, id] + rest;
    assert(v.drop_first() =~= seq!["--operation"@, id] + rest);
    assert(r.drop_first() =~= seq!["--operation"@, id] + rest);
    assert(flag_value_spec(seq!["--operation"@, id] + rest, "--operation"@) == Some(id));
    assert(flag_value_spec(v, "--operation"@) == Some(id));
    assert(flag_value_spec(r, "--operation"@) == Some(id));
}

/// Reads the helper's arguments (without the program name).
pub fn parse_helper_args(args: &Vec<String>) -> (r: Result<HelperCommand, AppError>)
    ensures
        match helper_spec(views(args@)) {
            Ok(c) => r matches Ok(cmd) && cmd@ == c,
            Err(m) => r matches Err(e) && e.is(AppErrorKind::Usage, m),
        },
{
    if args.len() == 0 {
        return Err(helper_usage_error());
    }
    let command = args[0].as_str();
    if text_eq(command, "execute-plan") {
        let plan_path = get_helper_flag_value(args, "--plan")?;
        Ok(HelperCommand::ExecutePlan { plan_path })
    } else if text_eq(command, "verify") {
        let operation_id = get_helper_flag_value(args, "--operation")?;
        Ok(HelperCommand::Verify { operation_id })
    } else if text_eq(command, "rollback") {
        let operation_id = get_helper_flag_value(args, "--operation")?;
        Ok(HelperCommand::Rollback { operation_id })
    } else if text_eq(command, "repair") {
        if has_flag(args, "--latest") {
            Ok(HelperCommand::Repair)
        } else {
            Err(
                AppError::new(
                    AppErrorKind::Usage,
                    "repair currently requires --latest".to_owned(),
                ),
            )
        }
    } else {
        Err(helper_usage_error())
    }
}


/// The lines the operator tool prints for a probe without `--json`.
pub open spec fn probe_summary_spec(p: MachineProbeView) -> Seq<Seq<char>> {
    seq![
        "host platform: "@ + p.host_platform.name_spec(),
        "firmware mode: "@ + p.firmware_mode.name_spec(),
        "partition style: "@ + p.partition_style.name_spec(),
        "secure boot: "@ + bool_spec(p.secure_boot_enabled),
        "bitlocker detected: "@ + bool_spec(p.bitlocker_detected),
        "esp volume: "@ + p.esp.volume,
    ]
}

fn labelled(label: &str, value: &str) -> (r: String)
    ensures
        r@ == label@ + value@,
{
    let mut r = label.to_owned();
    push_str(&mut r, value);
    r
}

pub fn probe_summary(probe: &MachineProbe) -> (lines: Vec<String>)
    ensures
        views(lines@) == probe_summary_spec(probe@),
{
    let lines = vec![
        labelled("host platform: ", probe.host_platform.as_str()),
        labelled("firmware mode: ", probe.firmware_mode.as_str()),
        labelled("partition style: ", probe.partition_style.as_str()),
        labelled("secure boot: ", bool_value(probe.secure_boot_enabled)),
        labelled("bitlocker detected: ", bool_value(probe.bitlocker_detected)),
        labelled("esp volume: ", probe.esp.volume.as_str()),
    ];
    assert(views(lines@) =~= probe_summary_spec(probe@));
    lines
}

/// The lines the operator tool prints for a plan without `--json`.
pub open spec fn plan_summary_spec(p: ExecutionPlanView) -> Seq<Seq<char>> {
    seq![
        "plan id: "@ + p.plan_id,
        "payload: "@ + p.payload.display_name,
        "target volume: "@ + p.target_volume,
    ]
}

pub fn plan_summary(plan: &ExecutionPlan) -> (lines: Vec<String>)
    ensures
        views(lines@) == plan_summary_spec(plan@),
{
    let lines = vec![
        labelled("plan id: ", plan.plan_id.as_str()),
        labelled("payload: ", plan.payload.display_name.as_str()),
        labelled("target volume: ", plan.target_volume.as_str()),
    ];
    assert(views(lines@) =~= plan_summary_spec(plan@));
    lines
}

} // verus!
