use envcheck::config::ToolCheck;
use envcheck::validators::tool::{ProbeOutcome, ToolObservation, ToolValidator};
use envcheck::{ValidationStatus, Validator};

fn tool(name: &str, version: Option<&str>, required: bool) -> ToolValidator {
    ToolValidator::new(ToolCheck {
        name: name.to_string(),
        version: version.map(|v| v.to_string()),
        required,
    })
}

fn completed(stdout: &str, stderr: &str) -> ProbeOutcome {
    ProbeOutcome::Completed { stdout: stdout.to_string(), stderr: stderr.to_string() }
}

#[test]
fn test_parse_version() {
    let check = ToolCheck {
        name: "test".to_string(),
        version: None,
        required: true,
    };
    let validator = ToolValidator::new(check);

    // Node.js
    assert_eq!(validator.parse_version("v14.15.0", "node"), Some("14.15.0".to_string()));

    // Go
    assert_eq!(validator.parse_version("go version go1.16.3 darwin/amd64", "go"), Some("1.16.3".to_string()));

    // Python
    assert_eq!(validator.parse_version("Python 3.9.1", "python"), Some("3.9.1".to_string()));

    // OpenJDK
    let openjdk_output = r#"openjdk version "25.0.1" 2025-10-21 LTS
OpenJDK Runtime Environment Temurin-25.0.1+8 (build 25.0.1+8-LTS)
OpenJDK 64-Bit Server VM Temurin-25.0.1+8 (build 25.0.1+8-LTS, mixed mode, sharing)"#;
    assert_eq!(validator.parse_version(openjdk_output, "java"), Some("25.0.1".to_string()));

    // Ruby
    assert_eq!(validator.parse_version("ruby 2.6.10p210 (2022-04-12 revision 67958) [universal.arm64e-darwin25]", "ruby"), Some("2.6.10".to_string()));

    // Rust
    assert_eq!(validator.parse_version("rustc 1.51.0 (2fd73fabe 2021-03-23)", "rust"), Some("1.51.0".to_string()));
}

#[test]
fn parse_version_falls_back_to_first_line() {
    let v = tool("x", None, true);
    assert_eq!(v.parse_version("  tool v1 build\r\nsecond line\n", "x"), Some("tool v1 build".to_string()));
    assert_eq!(v.parse_version("tool v1\nrelease 1.2.3\n", "x"), Some("1.2.3".to_string()));
    assert_eq!(v.parse_version("version 12", "x"), Some("version 12".to_string()));
    assert_eq!(v.parse_version(" \n\t ", "x"), None);
    assert_eq!(v.parse_version("", "x"), None);
}

#[test]
fn parse_version_takes_only_the_first_digit_run_of_a_word() {
    let v = tool("x", None, true);
    // "a1b2.3" starts its run at '1', which stops at 'b': rejected, word skipped.
    assert_eq!(v.parse_version("a1b2.3 next 4.5", "x"), Some("4.5".to_string()));
    assert_eq!(v.parse_version("v1.", "x"), Some("v1.".to_string()));
    assert_eq!(v.parse_version("\"7.1\"", "x"), Some("7.1".to_string()));
}

#[test]
fn version_requirement_operators() {
    let v = tool("x", None, true);
    assert!(v.check_version_requirement("18.2.0", ">=18.0.0"));
    assert!(!v.check_version_requirement("16.2.0", ">=18.0.0"));
    assert!(v.check_version_requirement("1.0", "<= 1.0"));
    assert!(v.check_version_requirement("2.0", ">1.9"));
    assert!(!v.check_version_requirement("1.9", ">1.9"));
    assert!(v.check_version_requirement("1.8", "<1.9"));
    assert!(v.check_version_requirement("3.9.1", "=3.9.1"));
    assert!(v.check_version_requirement("3.9.1", "==3.9.1"));
    assert!(!v.check_version_requirement("3.9.2", "=3.9.1"));
    assert!(v.check_version_requirement("3.9.1", "3.9"));
    assert!(!v.check_version_requirement("3.8.1", "3.9"));
}

#[test]
fn version_requirement_is_lexical_not_numeric() {
    let v = tool("x", None, true);
    // Known limitation: "10" sorts before "9" character by character.
    assert!(!v.check_version_requirement("10.0.0", ">=9.0.0"));
    assert!(v.check_version_requirement("9.0.0", ">=10.0.0"));
}

#[test]
fn version_commands() {
    let v = tool("x", None, true);
    let (cmd, args) = v.get_version_command("go").unwrap();
    assert_eq!((cmd.as_str(), args), ("go", vec!["version".to_string()]));
    let (cmd, args) = v.get_version_command("java").unwrap();
    assert_eq!((cmd.as_str(), args), ("java", vec!["-version".to_string()]));
    let (cmd, args) = v.get_version_command("rust").unwrap();
    assert_eq!((cmd.as_str(), args), ("rustc", vec!["--version".to_string()]));
    let (cmd, _) = v.get_version_command("python").unwrap();
    assert_eq!(cmd, "python3");
    let (cmd, args) = v.get_version_command("mytool").unwrap();
    assert_eq!((cmd.as_str(), args), ("mytool", vec!["--version".to_string()]));
}

#[test]
fn python_has_two_candidates() {
    assert_eq!(tool("python", None, true).candidates(), vec!["python3".to_string(), "python".to_string()]);
    assert_eq!(tool("node", None, true).candidates(), vec!["node".to_string()]);
}

#[test]
fn absent_tool_gives_one_result() {
    let obs = || ToolObservation { resolvable: vec![false], probes: vec![] };
    let r = tool("node", None, true).validate(obs());
    assert_eq!(r.len(), 1);
    assert_eq!(r[0].status, ValidationStatus::Error);
    assert_eq!(r[0].message, "node not found");
    assert_eq!(r[0].suggestion, Some("Install node to continue".to_string()));
    let r = tool("node", None, false).validate(obs());
    assert_eq!(r.len(), 1);
    assert_eq!(r[0].status, ValidationStatus::Warning);
    assert_eq!(r[0].message, "node not found (optional)");
    assert_eq!(r[0].suggestion, None);
}

#[test]
fn found_tool_without_constraint() {
    let v = tool("git", None, true);
    let obs = ToolObservation { resolvable: vec![true], probes: vec![] };
    assert!(v.next_probe(&obs).is_none());
    let r = v.validate(obs);
    assert_eq!(r.len(), 1);
    assert_eq!(r[0].status, ValidationStatus::Success);
    assert_eq!(r[0].message, "git found");
}

#[test]
fn tool_version_met_and_unmet() {
    let v = tool("node", Some(">=18.0.0"), true);
    let mut obs = ToolObservation { resolvable: vec![true], probes: vec![] };
    assert_eq!(v.next_probe(&obs), Some(("node".to_string(), vec!["--version".to_string()])));
    obs.probes.push(completed("v18.12.1\n", ""));
    assert!(v.next_probe(&obs).is_none());
    let r = v.validate(obs);
    assert_eq!(r[0].status, ValidationStatus::Success);
    assert_eq!(r[0].message, "node (node) 18.12.1 found");

    let obs = ToolObservation { resolvable: vec![true], probes: vec![completed("v16.0.0", "")] };
    let r = v.validate(obs);
    assert_eq!(r[0].status, ValidationStatus::Error);
    assert_eq!(r[0].message, "node (node) version 16.0.0 does not meet requirement >=18.0.0");
    assert_eq!(r[0].suggestion, Some("Update node to version >=18.0.0".to_string()));
}

#[test]
fn tool_version_read_from_stderr_when_stdout_empty() {
    let v = tool("java", Some(">=11"), true);
    let obs = ToolObservation {
        resolvable: vec![true],
        probes: vec![completed("", "openjdk version \"17.0.2\" 2022-01-18")],
    };
    let r = v.validate(obs);
    assert_eq!(r[0].status, ValidationStatus::Success);
    assert_eq!(r[0].message, "java (java) 17.0.2 found");
}

#[test]
fn python_falls_back_to_second_candidate() {
    let v = tool("python", Some(">=3"), true);
    let mut obs = ToolObservation { resolvable: vec![false, true], probes: vec![] };
    assert_eq!(v.next_probe(&obs), Some(("python3".to_string(), vec!["--version".to_string()])));
    obs.probes.push(ProbeOutcome::Unresolvable);
    assert_eq!(v.next_probe(&obs), Some(("python".to_string(), vec!["--version".to_string()])));
    obs.probes.push(completed("Python 3.11.4", ""));
    assert!(v.next_probe(&obs).is_none());
    let r = v.validate(obs);
    assert_eq!(r[0].status, ValidationStatus::Success);
    assert_eq!(r[0].message, "python (python) 3.11.4 found");
}

#[test]
fn python_probe_after_spawn_failure() {
    let v = tool("python", Some("<3"), true);
    let mut obs = ToolObservation { resolvable: vec![true, true], probes: vec![] };
    obs.probes.push(ProbeOutcome::SpawnFailed("permission denied".to_string()));
    assert_eq!(v.next_probe(&obs), Some(("python".to_string(), vec!["--version".to_string()])));
    obs.probes.push(completed("", "Python 2.7.18\n"));
    assert!(v.next_probe(&obs).is_none());
    let r = v.validate(obs);
    assert_eq!(r.len(), 1);
    assert_eq!(r[0].status, ValidationStatus::Success);
    assert_eq!(r[0].message, "python (python) 2.7.18 found");
}

#[test]
fn rust_entry_probes_its_own_name() {
    let v = tool("rust", Some(">=1.70"), true);
    let obs = ToolObservation { resolvable: vec![true], probes: vec![] };
    assert_eq!(v.next_probe(&obs), Some(("rust".to_string(), vec!["--version".to_string()])));
}

#[test]
fn undetermined_version_is_a_warning() {
    let v = tool("python", Some(">=3"), true);
    let obs = ToolObservation {
        resolvable: vec![true, true],
        probes: vec![ProbeOutcome::SpawnFailed("boom".to_string()), ProbeOutcome::Unresolvable],
    };
    assert!(v.next_probe(&obs).is_none());
    let r = v.validate(obs);
    assert_eq!(r.len(), 1);
    assert_eq!(r[0].status, ValidationStatus::Warning);
    assert_eq!(r[0].message, "python found but boom");

    let obs = ToolObservation { resolvable: vec![true, true], probes: vec![completed("", ""), ProbeOutcome::Unresolvable] };
    let r = v.validate(obs);
    assert_eq!(r[0].status, ValidationStatus::Warning);
    assert_eq!(r[0].message, "python found but Version could not be determined");
}
