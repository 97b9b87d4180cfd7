use partbooter::cli::{
    get_flag_value, has_flag, optional_flag_value, parse_cli_args, parse_helper_args, CliCommand,
    HelperCommand,
};
use partbooter::error::AppErrorKind;

fn args(items: &[&str]) -> Vec<String> {
    items.iter().map(|s| s.to_string()).collect()
}

#[test]
fn parses_plan_command() {
    let command = parse_cli_args(&args(&[
        "plan", "--payload", "C:\\ubuntu.iso", "--target", "D:", "--json", "--out", "p.pbplan",
    ]))
    .expect("plan command");
    match command {
        CliCommand::Plan { payload, target, json, out } => {
            assert_eq!(payload, "C:\\ubuntu.iso");
            assert_eq!(target, "D:");
            assert!(json);
            assert_eq!(out, Some("p.pbplan".to_string()));
        }
        _ => panic!("expected a plan command"),
    }
}

#[test]
fn missing_flags_are_usage_errors() {
    let e = parse_cli_args(&args(&["plan", "--target", "D:"])).err().expect("missing payload");
    assert_eq!(e.kind(), AppErrorKind::Usage);
    assert_eq!(e.exit_code(), 64);
    assert_eq!(
        e.message(),
        "missing required flag --payload; run with a supported command signature"
    );
    let e = parse_cli_args(&args(&["verify", "--operation"])).err().expect("no value");
    assert_eq!(
        e.message(),
        "missing required flag --operation; run with a supported command signature"
    );
    let e = parse_helper_args(&args(&["execute-plan"])).err().expect("no plan");
    assert_eq!(e.message(), "missing required flag --plan");
}

#[test]
fn other_commands() {
    assert!(matches!(
        parse_cli_args(&args(&["probe"])),
        Ok(CliCommand::Probe { json: false })
    ));
    assert!(matches!(
        parse_cli_args(&args(&["probe", "--json"])),
        Ok(CliCommand::Probe { json: true })
    ));
    match parse_cli_args(&args(&["rollback", "--operation", "op-1"])) {
        Ok(CliCommand::Rollback { operation_id }) => assert_eq!(operation_id, "op-1"),
        _ => panic!("expected rollback"),
    }
    match parse_cli_args(&args(&["apply", "--plan", "x.pbplan"])) {
        Ok(CliCommand::Apply { plan_path }) => assert_eq!(plan_path, "x.pbplan"),
        _ => panic!("expected apply"),
    }
    assert!(matches!(parse_cli_args(&args(&["repair", "--latest"])), Ok(CliCommand::Repair)));
    let e = parse_cli_args(&args(&["repair"])).err().expect("needs latest");
    assert_eq!(e.message(), "repair currently requires --latest");
    let e = parse_cli_args(&args(&[])).err().expect("empty");
    assert!(e.message().starts_with("usage: partbooter probe [--json]"));
    let e = parse_cli_args(&args(&["dance"])).err().expect("unknown");
    assert_eq!(e.kind(), AppErrorKind::Usage);
    match parse_helper_args(&args(&["verify", "--operation", "op-9"])) {
        Ok(HelperCommand::Verify { operation_id }) => assert_eq!(operation_id, "op-9"),
        _ => panic!("expected verify"),
    }
    let e = parse_helper_args(&args(&["probe"])).err().expect("helper has no probe");
    assert!(e.message().starts_with("usage: partbooter-helper execute-plan"));
}

#[test]
fn flag_values_come_from_the_first_occurrence() {
    let a = args(&["plan", "--out", "a", "--out", "b"]);
    assert_eq!(optional_flag_value(&a, "--out"), Some("a".to_string()));
    assert_eq!(optional_flag_value(&a, "--json"), None);
    assert!(has_flag(&a, "--out"));
    assert!(!has_flag(&a, "--json"));
    assert_eq!(get_flag_value(&a, "--out").expect("value"), "a");
}
