//! Driving the packaging state machine against an in-memory filesystem:
//! the happy path through every stage, byte-identical artifact copies, a
//! second idempotent run, and the fail-stop behavior of a broken build.

use std::collections::HashMap;

use cargo_wdk::arch::{CpuArchitecture, TargetArch};
use cargo_wdk::args::{DriverType, Profile};
use cargo_wdk::errors::{CommandError, FileError};
use cargo_wdk::manifest::DriverMetadata;
use cargo_wdk::pipeline::{PackageOutcome, PackagePipeline, Stage};
use cargo_wdk::plan::{BuildParams, PackagePlan, ToolchainConfig};
use cargo_wdk::provider::{CommandOutput, ProviderEvent, ProviderOp};

fn params() -> BuildParams {
    BuildParams {
        working_dir: "ws".to_string(),
        profile: Profile::Debug,
        target_arch: TargetArch::Default(CpuArchitecture::Amd64),
        verify_signature: false,
        sample_class: false,
        verbosity_level: 0,
    }
}

fn kmdf_metadata() -> DriverMetadata {
    DriverMetadata {
        driver_type: DriverType::Kmdf,
        inf_template: None,
        driver_version: None,
    }
}

fn plan() -> PackagePlan {
    PackagePlan::new(
        &params(),
        "driver",
        "ws/driver",
        &kmdf_metadata(),
        &ToolchainConfig { include_paths: vec![], library_paths: vec![] },
    )
}

fn compiled_fs() -> HashMap<String, Vec<u8>> {
    let mut fs = HashMap::new();
    fs.insert("ws/driver/driver.inx".to_string(), b"inf template".to_vec());
    fs
}

/// Performs one operation against the in-memory filesystem, simulating the
/// external tools, and returns its event.
fn perform(
    op: &ProviderOp,
    fs: &mut HashMap<String, Vec<u8>>,
    build_fails: bool,
) -> ProviderEvent {
    match op {
        ProviderOp::RunCommand { program, args, .. } => {
            let ok = ProviderEvent::CommandDone(Ok(CommandOutput {
                stdout: String::new(),
                stderr: String::new(),
            }));
            match program.as_str() {
                "cargo" => {
                    if build_fails {
                        ProviderEvent::CommandDone(Err(CommandError::CommandFailed {
                            command: program.clone(),
                            args: args.clone(),
                            stdout: "compile error".to_string(),
                        }))
                    } else {
                        fs.insert("ws/target/debug/driver.sys".to_string(), b"binary".to_vec());
                        fs.insert("ws/target/debug/driver.pdb".to_string(), b"symbols".to_vec());
                        fs.insert(
                            "ws/target/debug/deps/driver.map".to_string(),
                            b"linker map".to_vec(),
                        );
                        ok
                    }
                }
                "stampinf" => {
                    fs.insert("ws/target/debug/driver.inf".to_string(), b"stamped inf".to_vec());
                    ok
                }
                "inf2cat" => {
                    fs.insert("ws/target/debug/driver.cat".to_string(), b"catalog".to_vec());
                    ok
                }
                "makecert" => {
                    fs.insert(
                        "ws/target/debug/WDRLocalTestCert.cer".to_string(),
                        b"certificate".to_vec(),
                    );
                    ok
                }
                _ => ok,
            }
        }
        ProviderOp::CheckExists { path } => ProviderEvent::ExistsResult(fs.contains_key(path)),
        ProviderOp::CreateDirAll { .. } => ProviderEvent::DirCreated(Ok(())),
        ProviderOp::CopyFile { src, dst } => match fs.get(src) {
            Some(bytes) => {
                let copied = bytes.clone();
                fs.insert(dst.clone(), copied);
                ProviderEvent::FileCopied(Ok(()))
            }
            None => ProviderEvent::FileCopied(Err(FileError {
                path: src.clone(),
                cause: "no such file".to_string(),
            })),
        },
    }
}

fn run_pipeline(
    fs: &mut HashMap<String, Vec<u8>>,
    build_fails: bool,
) -> (PackageOutcome, Vec<ProviderOp>) {
    let mut machine = PackagePipeline::new(plan());
    let mut log: Vec<ProviderOp> = Vec::new();
    while let Some(op) = machine.current_op() {
        let ev = perform(&op, fs, build_fails);
        log.push(op);
        machine.on_event(ev);
    }
    (machine.outcome().unwrap(), log)
}

#[test]
fn pipeline_runs_every_stage_in_order_and_succeeds() {
    let mut fs = compiled_fs();
    let (outcome, log) = run_pipeline(&mut fs, false);
    assert!(matches!(outcome, PackageOutcome::Succeeded));

    // the compiler runs first, and the stages follow in order
    let programs: Vec<&str> = log
        .iter()
        .filter_map(|op| match op {
            ProviderOp::RunCommand { program, .. } => Some(program.as_str()),
            _ => None,
        })
        .collect();
    assert_eq!(
        programs,
        vec!["cargo", "stampinf", "inf2cat", "makecert", "certmgr", "signtool", "signtool"]
    );

    // the package directory is created and holds all six artifacts
    assert!(log.iter().any(|op| matches!(
        op,
        ProviderOp::CreateDirAll { path } if path == "ws/target/debug/driver_package"
    )));
    for name in [
        "driver.sys",
        "driver.pdb",
        "driver.map",
        "driver.inf",
        "driver.cat",
        "WDRLocalTestCert.cer",
    ] {
        let dst = format!("ws/target/debug/driver_package/{name}");
        assert!(fs.contains_key(&dst), "missing artifact {dst}");
    }
}

#[test]
fn packaged_artifacts_are_byte_identical_to_their_sources() {
    let mut fs = compiled_fs();
    let (outcome, _) = run_pipeline(&mut fs, false);
    assert!(matches!(outcome, PackageOutcome::Succeeded));

    let pairs = [
        ("ws/target/debug/deps/driver.map", "ws/target/debug/driver_package/driver.map"),
        ("ws/target/debug/driver.pdb", "ws/target/debug/driver_package/driver.pdb"),
        (
            "ws/target/debug/WDRLocalTestCert.cer",
            "ws/target/debug/driver_package/WDRLocalTestCert.cer",
        ),
    ];
    for (src, dst) in pairs {
        assert_eq!(fs.get(src), fs.get(dst), "{dst} differs from {src}");
    }
}

#[test]
fn second_run_on_unchanged_workspace_is_idempotent() {
    let mut fs = compiled_fs();
    let (outcome, _) = run_pipeline(&mut fs, false);
    assert!(matches!(outcome, PackageOutcome::Succeeded));
    let after_first = fs.clone();

    let (outcome, _) = run_pipeline(&mut fs, false);
    assert!(matches!(outcome, PackageOutcome::Succeeded));
    assert_eq!(fs, after_first);
}

#[test]
fn failed_build_stops_before_every_later_stage() {
    let mut fs = compiled_fs();
    let (outcome, log) = run_pipeline(&mut fs, true);
    match outcome {
        PackageOutcome::Failed(stage, _) => assert_eq!(stage, Stage::Build),
        _ => panic!("expected a build failure"),
    }

    // only the compiler invocation was ever issued: no stamping,
    // cataloguing, signing, copying, and no package directory
    assert_eq!(log.len(), 1);
    assert!(matches!(&log[0], ProviderOp::RunCommand { program, .. } if program == "cargo"));
    assert!(!fs.contains_key("ws/target/debug/driver_package/driver.sys"));
}

#[test]
fn missing_compiler_output_fails_the_build_stage() {
    // the compiler reports success but produces nothing at the expected path
    let mut machine = PackagePipeline::new(plan());
    let op = machine.current_op().unwrap();
    assert!(matches!(&op, ProviderOp::RunCommand { program, .. } if program == "cargo"));
    machine.on_event(ProviderEvent::CommandDone(Ok(CommandOutput {
        stdout: String::new(),
        stderr: String::new(),
    })));
    let op = machine.current_op().unwrap();
    assert!(
        matches!(&op, ProviderOp::CheckExists { path } if path == "ws/target/debug/driver.sys")
    );
    machine.on_event(ProviderEvent::ExistsResult(false));
    assert!(machine.current_op().is_none());
    match machine.outcome().unwrap() {
        PackageOutcome::Failed(stage, _) => assert_eq!(stage, Stage::Build),
        _ => panic!("expected a build failure"),
    }
}

#[test]
fn verification_steps_run_for_sample_class_builds() {
    let mut sample_params = params();
    sample_params.sample_class = true;
    let sample_plan = PackagePlan::new(
        &sample_params,
        "driver",
        "ws/driver",
        &kmdf_metadata(),
        &ToolchainConfig { include_paths: vec![], library_paths: vec![] },
    );
    let mut machine = PackagePipeline::new(sample_plan);
    let mut fs = compiled_fs();
    let mut signtool_invocations = 0;
    while let Some(op) = machine.current_op() {
        if let ProviderOp::RunCommand { program, .. } = &op {
            if program == "signtool" {
                signtool_invocations += 1;
            }
        }
        let ev = perform(&op, &mut fs, false);
        machine.on_event(ev);
    }
    assert!(matches!(machine.outcome().unwrap(), PackageOutcome::Succeeded));
    // two signing runs and two verification runs
    assert_eq!(signtool_invocations, 4);
}
