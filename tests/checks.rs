use envcheck::config::{Config, EnvVarCheck, FileCheck, NetworkCheck, ToolCheck};
use envcheck::validators::env::EnvValidator;
use envcheck::validators::file::{FileObservation, FileValidator, PermissionProbe};
use envcheck::validators::network::NetworkValidator;
use envcheck::validators::port::PortValidator;
use envcheck::validators::tool::ToolObservation;
use envcheck::validators::{run_all_validations, Observations, RunError};
use envcheck::{Reporter, ValidationResult, ValidationStatus, Validator};

fn env(name: &str, required: bool, pattern: Option<&str>) -> EnvValidator {
    EnvValidator::new(EnvVarCheck { name: name.to_string(), required, pattern: pattern.map(|p| p.to_string()) })
}

fn file(path: &str, required: bool, is_directory: bool, permissions: Option<u32>) -> FileCheck {
    FileCheck { path: path.to_string(), required, is_directory, permissions }
}

fn seen(exists: bool, is_dir: bool, permissions: PermissionProbe) -> FileObservation {
    FileObservation { exists, is_dir, permissions }
}

#[test]
fn env_unset_required_and_optional() {
    let r = env("DATABASE_URL", true, None).validate(None);
    assert_eq!(r.len(), 1);
    assert_eq!(r[0].status, ValidationStatus::Error);
    assert_eq!(r[0].message, "DATABASE_URL is not set");
    assert_eq!(r[0].suggestion, Some("Set DATABASE_URL environment variable".to_string()));
    let r = env("NODE_ENV", false, None).validate(None);
    assert_eq!(r[0].status, ValidationStatus::Warning);
    assert_eq!(r[0].message, "NODE_ENV is not set (optional)");
}

#[test]
fn env_set_with_and_without_pattern() {
    let r = env("PATH", true, None).validate(Some("/usr/bin".to_string()));
    assert_eq!(r[0].status, ValidationStatus::Success);
    assert_eq!(r[0].message, "PATH is set");
    let r = env("TEST_VAR", true, Some("12")).validate(Some("a123".to_string()));
    assert_eq!(r[0].status, ValidationStatus::Success);
    assert_eq!(r[0].message, "TEST_VAR is set and matches pattern");
    let r = env("TEST_VAR", false, Some("xyz")).validate(Some("abc".to_string()));
    assert_eq!(r[0].status, ValidationStatus::Error);
    assert_eq!(r[0].message, "TEST_VAR is set but does not match pattern");
    assert_eq!(r[0].suggestion, Some("Ensure TEST_VAR matches pattern: xyz".to_string()));
}

#[test]
fn port_available_and_taken() {
    let r = PortValidator::new(9999).validate(true);
    assert_eq!(r.len(), 1);
    assert_eq!(r[0].status, ValidationStatus::Success);
    assert_eq!(r[0].message, "Port 9999 is available");
    let r = PortValidator::new(80).validate(false);
    assert_eq!(r[0].status, ValidationStatus::Error);
    assert_eq!(r[0].message, "Port 80 is already in use");
    assert_eq!(r[0].suggestion, Some("Free up port 80 or change the port in your config".to_string()));
    let r = PortValidator::new(0).validate(true);
    assert_eq!(r[0].message, "Port 0 is available");
    let r = PortValidator::new(65535).validate(true);
    assert_eq!(r[0].message, "Port 65535 is available");
}

#[test]
fn file_missing_required_and_optional() {
    let r = FileValidator::new(file(".env", true, false, None)).validate(seen(false, false, PermissionProbe::Unreadable));
    assert_eq!(r.len(), 1);
    assert_eq!(r[0].status, ValidationStatus::Error);
    assert_eq!(r[0].message, "File .env does not exist");
    assert_eq!(r[0].suggestion, Some("Create .env file".to_string()));
    let r = FileValidator::new(file("out", false, true, None)).validate(seen(false, false, PermissionProbe::Unreadable));
    assert_eq!(r[0].status, ValidationStatus::Warning);
    assert_eq!(r[0].message, "Directory out does not exist (optional)");
}

#[test]
fn file_expected_directory_but_is_file() {
    let r = FileValidator::new(file("Cargo.toml", false, true, Some(0o644)))
        .validate(seen(true, false, PermissionProbe::Mode(0o100644)));
    assert_eq!(r.len(), 1);
    assert_eq!(r[0].status, ValidationStatus::Error);
    assert_eq!(r[0].message, "Cargo.toml exists but is not a directory");
    assert_eq!(r[0].suggestion, Some("Ensure Cargo.toml is a directory".to_string()));
}

#[test]
fn file_exists_and_directory_exists() {
    let r = FileValidator::new(file("a.txt", true, false, None)).validate(seen(true, false, PermissionProbe::Unreadable));
    assert_eq!(r.len(), 1);
    assert_eq!(r[0].status, ValidationStatus::Success);
    assert_eq!(r[0].message, "a.txt exists");
    let r = FileValidator::new(file("/tmp", true, true, None)).validate(seen(true, true, PermissionProbe::Unreadable));
    assert_eq!(r[0].message, "Directory /tmp exists");
}

#[test]
fn file_permission_bits() {
    let r = FileValidator::new(file("key", true, false, Some(0o600)))
        .validate(seen(true, false, PermissionProbe::Mode(0o100600)));
    assert_eq!(r.len(), 2);
    assert_eq!(r[1].status, ValidationStatus::Success);
    assert_eq!(r[1].message, "key has correct permissions (600)");
    let r = FileValidator::new(file("key", true, false, Some(0o600)))
        .validate(seen(true, false, PermissionProbe::Mode(0o100644)));
    assert_eq!(r[1].status, ValidationStatus::Error);
    assert_eq!(r[1].message, "key has permissions 644, but 600 is required");
    assert_eq!(r[1].suggestion, Some("Run 'chmod 600 key' to fix".to_string()));
    let r = FileValidator::new(file("key", true, false, Some(0o600)))
        .validate(seen(true, false, PermissionProbe::Unsupported));
    assert_eq!(r[1].status, ValidationStatus::Warning);
    assert_eq!(r[1].message, "Permission check skipped for key (not supported on this platform)");
    let r = FileValidator::new(file("key", true, false, Some(0o600)))
        .validate(seen(true, false, PermissionProbe::Unreadable));
    assert_eq!(r.len(), 1);
}

#[test]
fn network_status_and_failure() {
    let check = |code: Option<u16>| NetworkValidator::new(NetworkCheck { url: "http://x.test".to_string(), status_code: code });
    let r = check(None).validate(Ok(200));
    assert_eq!(r[0].status, ValidationStatus::Success);
    assert_eq!(r[0].message, "Successfully connected to http://x.test (Status: 200)");
    let r = check(Some(204)).validate(Ok(200));
    assert_eq!(r[0].status, ValidationStatus::Error);
    assert_eq!(r[0].message, "Connected to http://x.test but got status 200");
    assert_eq!(r[0].suggestion, Some("Expected status code 204".to_string()));
    let r = check(None).validate(Err("timed out".to_string()));
    assert_eq!(r[0].status, ValidationStatus::Error);
    assert_eq!(r[0].message, "Failed to connect to http://x.test");
    assert_eq!(r[0].suggestion, Some("Error: timed out".to_string()));
}

fn sample_config() -> Config {
    Config {
        version: "1".to_string(),
        tools: vec![
            ToolCheck { name: "git".to_string(), version: None, required: true },
            ToolCheck { name: "zzz".to_string(), version: None, required: false },
        ],
        env_vars: vec![EnvVarCheck { name: "HOME".to_string(), required: true, pattern: None }],
        ports: vec![3000, 5432],
        files: vec![file(".env", true, false, None)],
        network: vec![NetworkCheck { url: "http://x.test".to_string(), status_code: None }],
    }
}

fn sample_observations() -> Observations {
    Observations {
        tools: vec![
            ToolObservation { resolvable: vec![true], probes: vec![] },
            ToolObservation { resolvable: vec![false], probes: vec![] },
        ],
        env_vars: vec![Some("/root".to_string())],
        ports: vec![true, false],
        files: vec![seen(false, false, PermissionProbe::Unreadable)],
        network: vec![Ok(200)],
    }
}

#[test]
fn orchestrator_keeps_kind_and_list_order() {
    let r = run_all_validations(&sample_config(), sample_observations()).unwrap();
    let messages: Vec<&str> = r.iter().map(|x| x.message.as_str()).collect();
    assert_eq!(
        messages,
        vec![
            "git found",
            "zzz not found (optional)",
            "HOME is set",
            "Port 3000 is available",
            "Port 5432 is already in use",
            "File .env does not exist",
            "Successfully connected to http://x.test (Status: 200)",
        ]
    );
}

#[test]
fn orchestrator_rejects_mismatched_observations() {
    let mut obs = sample_observations();
    obs.ports.pop();
    assert_eq!(run_all_validations(&sample_config(), obs).unwrap_err(), RunError::ObservationCount);
}

#[test]
fn report_counts_and_exit_code() {
    let r = run_all_validations(&sample_config(), sample_observations()).unwrap();
    let total = r.len();
    let reporter = Reporter::new(r);
    let s = reporter.summary();
    assert_eq!((s.successes, s.warnings, s.errors), (4, 1, 2));
    assert_eq!(s.successes + s.warnings + s.errors, total);
    assert!(!s.passed);
    assert!(reporter.has_errors());
    assert_eq!(reporter.exit_code(), 1);
}

#[test]
fn warnings_alone_pass() {
    let reporter = Reporter::new(vec![
        ValidationResult::success("a".to_string()),
        ValidationResult::warning("b".to_string(), None),
    ]);
    let s = reporter.summary();
    assert!(s.passed);
    assert_eq!(s.warnings, 1);
    assert!(!reporter.has_errors());
    assert_eq!(reporter.exit_code(), 0);
    let empty = Reporter::new(vec![]);
    assert!(empty.summary().passed);
    assert_eq!(empty.exit_code(), 0);
}

#[test]
fn config_lookup_takes_first_present_name() {
    assert_eq!(Config::find_config(&vec![false, true, true, false]), Ok(".envcheck.yml".to_string()));
    assert_eq!(Config::find_config(&vec![true, false, false, false]), Ok(".envcheck.yaml".to_string()));
    assert_eq!(
        Config::find_config(&vec![false, false, false, false]),
        Err("No config file found. Looking for: .envcheck.yaml, .envcheck.yml, envcheck.yaml, envcheck.yml".to_string())
    );
    assert!(envcheck::config::default_true());
    assert!(!envcheck::config::default_false());
}
