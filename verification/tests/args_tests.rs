//! Validation rules of the command-line argument values.

use cargo_wdk::arch::{CpuArchitecture, TargetArch};
use cargo_wdk::args::{
    BuildProjectArgs, Cli, DriverType, DriverTypeArg, NewCommandArgs, NewProjectArgs,
    PackageProjectArgs, Profile, ProfileArg, ProjectNameArg, Subcmd, TargetArchArg,
};
use cargo_wdk::errors::{InvalidDriverProjectNameError, NewProjectArgsError};

#[test]
fn valid_project_names_are_accepted() {
    let p = ProjectNameArg::from_str("my-driver_2").unwrap();
    assert_eq!(p.0, "my-driver_2");
    assert!(ProjectNameArg::from_str("a").is_ok());
    assert!(ProjectNameArg::from_str("Driver1").is_ok());
}

#[test]
fn empty_project_name_is_rejected() {
    match ProjectNameArg::from_str("") {
        Err(NewProjectArgsError::InvalidDriverProjectNameError(n, d)) => {
            assert_eq!(n, "");
            assert!(matches!(
                d,
                InvalidDriverProjectNameError::EmptyProjectNameError
            ));
        }
        _ => panic!("expected a rejection"),
    }
}

#[test]
fn project_name_with_bad_character_is_rejected() {
    match ProjectNameArg::from_str("my driver") {
        Err(NewProjectArgsError::InvalidDriverProjectNameError(_, d)) => {
            assert!(matches!(
                d,
                InvalidDriverProjectNameError::NonAlphanumericProjectNameError
            ));
        }
        _ => panic!("expected a rejection"),
    }
}

#[test]
fn project_name_starting_with_digit_is_rejected() {
    match ProjectNameArg::from_str("1driver") {
        Err(NewProjectArgsError::InvalidDriverProjectNameError(_, d)) => {
            assert!(matches!(
                d,
                InvalidDriverProjectNameError::InvalidStartCharacter
            ));
        }
        _ => panic!("expected a rejection"),
    }
}

#[test]
fn reserved_project_names_are_rejected() {
    for name in ["crate", "self", "super", "extern", "new", "build"] {
        match ProjectNameArg::from_str(name) {
            Err(NewProjectArgsError::InvalidDriverProjectNameError(_, d)) => {
                match d {
                    InvalidDriverProjectNameError::ReservedName(r) => assert_eq!(r, name),
                    _ => panic!("expected a reserved-name rejection for {name}"),
                }
            }
            _ => panic!("expected a rejection for {name}"),
        }
    }
}

#[test]
fn rejection_messages_name_the_rule_broken() {
    let e = ProjectNameArg::from_str("").err().unwrap();
    assert_eq!(
        e.message(),
        "Invalid driver project name: , error: Project name cannot be empty"
    );
    let e = ProjectNameArg::from_str("crate").err().unwrap();
    assert_eq!(
        e.message(),
        "Invalid driver project name: crate, error: Project name cannot be a reserved keyword: crate"
    );
}

#[test]
fn driver_type_parses_ignoring_case() {
    assert!(matches!(DriverTypeArg::from_str("kmdf"), Ok(DriverTypeArg::Kmdf)));
    assert!(matches!(DriverTypeArg::from_str("KMDF"), Ok(DriverTypeArg::Kmdf)));
    assert!(matches!(DriverTypeArg::from_str("Umdf"), Ok(DriverTypeArg::Umdf)));
    assert!(matches!(DriverTypeArg::from_str("wdm"), Ok(DriverTypeArg::Wdm)));
    assert_eq!(
        DriverTypeArg::from_str("vxd").err().unwrap(),
        "Invalid driver type: vxd"
    );
}

#[test]
fn profile_parses_ignoring_case() {
    assert!(matches!(ProfileArg::from_str("debug"), Ok(ProfileArg::Debug)));
    assert!(matches!(ProfileArg::from_str("Release"), Ok(ProfileArg::Release)));
    assert_eq!(
        ProfileArg::from_str("fast").err().unwrap(),
        "'fast' is not a valid profile"
    );
}

#[test]
fn target_arch_parses_ignoring_case() {
    assert!(matches!(TargetArchArg::from_str("x64"), Ok(TargetArchArg::X64)));
    assert!(matches!(TargetArchArg::from_str("ARM64"), Ok(TargetArchArg::Arm64)));
    assert_eq!(
        TargetArchArg::from_str("riscv").err().unwrap(),
        "'riscv' is not a valid target architecture"
    );
}

#[test]
fn argument_values_convert_to_their_domain_types() {
    assert_eq!(DriverType::from(DriverTypeArg::Kmdf), DriverType::Kmdf);
    assert_eq!(DriverType::from(DriverTypeArg::Umdf), DriverType::Umdf);
    assert_eq!(DriverType::from(DriverTypeArg::Wdm), DriverType::Wdm);
    assert_eq!(Profile::from(ProfileArg::Debug), Profile::Debug);
    assert_eq!(Profile::from(ProfileArg::Release), Profile::Release);
    assert_eq!(
        CpuArchitecture::from(TargetArchArg::X64),
        CpuArchitecture::Amd64
    );
    assert_eq!(
        TargetArch::from(TargetArchArg::Arm64),
        TargetArch::Selected(CpuArchitecture::Arm64)
    );
}

#[test]
fn exactly_one_driver_type_flag_must_be_set() {
    let args = NewCommandArgs {
        kmdf: true,
        umdf: false,
        wdm: false,
        path: "drivers/new-one".to_string(),
    };
    assert_eq!(args.selected_driver_type().unwrap(), DriverType::Kmdf);

    let none = NewCommandArgs { kmdf: false, umdf: false, wdm: false, path: ".".to_string() };
    assert_eq!(
        none.selected_driver_type().err().unwrap(),
        "Please select exactly one driver type: kmdf, umdf, or wdm"
    );

    let two = NewCommandArgs { kmdf: true, umdf: true, wdm: false, path: ".".to_string() };
    assert!(two.selected_driver_type().is_err());
}

#[test]
fn argument_structs_hold_their_values() {
    let new_args = NewProjectArgs {
        driver_project_name: ProjectNameArg::from_str("edge-filter").unwrap(),
        driver_type: DriverTypeArg::Umdf,
        cwd: "workspace".to_string(),
    };
    assert_eq!(new_args.driver_project_name.0, "edge-filter");

    let pkg_args = PackageProjectArgs {
        cwd: ".".to_string(),
        profile: ProfileArg::Debug,
        target_arch: TargetArchArg::X64,
        verify_signature: false,
        sample_class: true,
    };
    assert!(pkg_args.sample_class);
}

#[test]
fn build_args_become_build_params() {
    let args = BuildProjectArgs {
        cwd: "ws".to_string(),
        profile: None,
        target_arch: None,
        verify_signature: true,
        sample: false,
    };
    let params = args.to_build_params(TargetArch::Default(CpuArchitecture::Amd64), 2);
    assert_eq!(params.working_dir, "ws");
    assert_eq!(params.profile, Profile::Debug);
    assert_eq!(
        params.target_arch,
        TargetArch::Default(CpuArchitecture::Amd64)
    );
    assert!(params.verify_signature);
    assert!(!params.sample_class);
    assert_eq!(params.verbosity_level, 2);

    let chosen = BuildProjectArgs {
        cwd: ".".to_string(),
        profile: Some(Profile::Release),
        target_arch: Some(CpuArchitecture::Arm64),
        verify_signature: false,
        sample: true,
    };
    let params = chosen.to_build_params(TargetArch::Selected(CpuArchitecture::Arm64), 0);
    assert_eq!(params.profile, Profile::Release);
    assert_eq!(
        params.target_arch,
        TargetArch::Selected(CpuArchitecture::Arm64)
    );
    assert!(params.sample_class);
}

#[test]
fn an_invocation_carries_its_subcommand() {
    let cli = Cli {
        cargo_command: "wdk".to_string(),
        sub_cmd: Subcmd::Build(BuildProjectArgs {
            cwd: ".".to_string(),
            profile: None,
            target_arch: None,
            verify_signature: false,
            sample: false,
        }),
        verbose: 0,
    };
    match cli.sub_cmd {
        Subcmd::Build(args) => assert_eq!(args.cwd, "."),
        Subcmd::New(_) => panic!("expected the build subcommand"),
    }
}
