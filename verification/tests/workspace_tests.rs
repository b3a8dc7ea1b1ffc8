//! Classification decisions and the aggregate verdict of one invocation.

use cargo_wdk::errors::{CommandError, MalformedDriverConfig};
use cargo_wdk::manifest::{package_driver_config, DriverConfigOutcome};
use cargo_wdk::pipeline::{FailureCause, PackageOutcome, Stage};
use cargo_wdk::workspace::{classify_member, immediate_outcome, MemberDecision, WorkspaceOutcome};

#[test]
fn member_without_wdk_section_is_skipped_and_never_built() {
    let config = package_driver_config("[package]\nname = \"non_driver_crate\"\n");
    assert!(matches!(config, DriverConfigOutcome::Absent));

    let decision = classify_member("non_driver_crate", config);
    match &decision {
        MemberDecision::Skip(reason) => assert_eq!(
            reason,
            "No package.metadata.wdk section found. Skipping driver package workflow for package: non_driver_crate"
        ),
        _ => panic!("expected the member to be skipped"),
    }

    // a skipped member gets its outcome immediately: no pipeline exists for
    // it, so no compiler invocation can ever be issued
    match immediate_outcome(decision) {
        Err(PackageOutcome::Skipped(_)) => {}
        _ => panic!("expected a skipped outcome"),
    }
}

#[test]
fn malformed_member_fails_at_classification_only() {
    let config = package_driver_config(
        "[package.metadata.wdk.driver-model]\ndriver-type = KMDF\n",
    );
    let decision = classify_member("rust-project", config);
    match immediate_outcome(decision) {
        Err(PackageOutcome::Failed(stage, FailureCause::Metadata(_))) => {
            assert_eq!(stage, Stage::Classification)
        }
        _ => panic!("expected a classification failure"),
    }
}

#[test]
fn report_lines_name_package_or_reason() {
    let done = WorkspaceOutcome::report_line("driver_1", &PackageOutcome::Succeeded);
    assert_eq!(done, "Processing completed for package: driver_1");

    let skipped = WorkspaceOutcome::report_line(
        "non_driver_crate",
        &PackageOutcome::Skipped("No package.metadata.wdk section found. Skipping driver package workflow for package: non_driver_crate".to_string()),
    );
    assert!(skipped.contains("Skipping driver package workflow"));

    let failed = WorkspaceOutcome::report_line(
        "rust-project",
        &PackageOutcome::Failed(
            Stage::Classification,
            FailureCause::Metadata(MalformedDriverConfig {
                reason: "driver-type value is not a quoted string".to_string(),
            }),
        ),
    );
    assert_eq!(
        failed,
        "Error packaging the child project: rust-project, error: Error Parsing WDK metadata from Cargo.toml: driver-type value is not a quoted string"
    );
}

#[test]
fn aggregate_names_exactly_the_failed_packages() {
    let mut outcome = WorkspaceOutcome::new("tests/emulated-workspace".to_string());
    outcome.record("driver_1".to_string(), PackageOutcome::Succeeded);
    outcome.record(
        "rust-project".to_string(),
        PackageOutcome::Failed(
            Stage::Classification,
            FailureCause::Metadata(MalformedDriverConfig { reason: "bad".to_string() }),
        ),
    );
    outcome.record(
        "skipper".to_string(),
        PackageOutcome::Skipped("not a driver".to_string()),
    );
    outcome.record(
        "driver_2".to_string(),
        PackageOutcome::Failed(
            Stage::Build,
            FailureCause::Command(CommandError::CommandFailed {
                command: "cargo".to_string(),
                args: vec!["build".to_string()],
                stdout: String::new(),
            }),
        ),
    );

    assert!(!outcome.overall_success());
    assert_eq!(outcome.exit_code(), 1);
    assert_eq!(
        outcome.failed_package_names(),
        vec!["rust-project".to_string(), "driver_2".to_string()]
    );
    let message = outcome.aggregate_error().unwrap();
    assert!(message.starts_with(
        "One or more rust (possibly driver) projects failed to package in the working directory: tests/emulated-workspace"
    ));
    assert!(message.ends_with("failed packages: [\"rust-project\", \"driver_2\"]"));
}

#[test]
fn all_skipped_or_succeeding_members_exit_zero() {
    let mut outcome = WorkspaceOutcome::new(".".to_string());
    assert_eq!(outcome.exit_code(), 0);
    outcome.record("driver".to_string(), PackageOutcome::Succeeded);
    outcome.record(
        "plain".to_string(),
        PackageOutcome::Skipped("not a driver".to_string()),
    );
    assert!(outcome.overall_success());
    assert_eq!(outcome.exit_code(), 0);
    assert!(outcome.aggregate_error().is_none());
    assert!(outcome.failed_package_names().is_empty());
}
