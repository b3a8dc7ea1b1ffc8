//! The computed packaging plan: output paths, artifact set and tool
//! invocations for each profile, architecture and driver kind.

use cargo_wdk::arch::{CpuArchitecture, TargetArch};
use cargo_wdk::args::{DriverType, Profile};
use cargo_wdk::manifest::DriverMetadata;
use cargo_wdk::plan::{BuildParams, PackagePlan, ToolchainConfig};

fn make_plan(
    profile: Profile,
    target_arch: TargetArch,
    kind: DriverType,
    name: &str,
) -> PackagePlan {
    PackagePlan::new(
        &BuildParams {
            working_dir: "ws".to_string(),
            profile,
            target_arch,
            verify_signature: false,
            sample_class: false,
            verbosity_level: 0,
        },
        name,
        "ws/member",
        &DriverMetadata { driver_type: kind, inf_template: None, driver_version: None },
        &ToolchainConfig {
            include_paths: vec!["C:/wdk/include".to_string(), "C:/sdk/include".to_string()],
            library_paths: vec!["C:/wdk/lib".to_string()],
        },
    )
}

#[test]
fn debug_default_arch_paths_mirror_the_cargo_layout() {
    let p = make_plan(
        Profile::Debug,
        TargetArch::Default(CpuArchitecture::Amd64),
        DriverType::Kmdf,
        "kmdf-driver",
    );
    assert_eq!(p.out_dir, "ws/target/debug");
    assert_eq!(p.package_dir, "ws/target/debug/kmdf_driver_package");
    assert_eq!(p.binary_src, "ws/target/debug/kmdf_driver.sys");
    assert_eq!(p.underscored_name, "kmdf_driver");
}

#[test]
fn selected_arch_adds_the_triple_directory_and_target_flag() {
    let p = make_plan(
        Profile::Release,
        TargetArch::Selected(CpuArchitecture::Arm64),
        DriverType::Umdf,
        "umdf-driver",
    );
    assert_eq!(p.out_dir, "ws/target/aarch64-pc-windows-msvc/release");
    assert_eq!(p.binary_src, "ws/target/aarch64-pc-windows-msvc/release/umdf_driver.dll");
    assert_eq!(p.build_cmd.program, "cargo");
    assert_eq!(
        p.build_cmd.args,
        vec!["build", "-p", "umdf-driver", "--release", "--target", "aarch64-pc-windows-msvc"]
    );
}

#[test]
fn debug_build_command_has_no_release_or_target_flags() {
    let p = make_plan(
        Profile::Debug,
        TargetArch::Default(CpuArchitecture::Amd64),
        DriverType::Wdm,
        "wdm-driver",
    );
    assert_eq!(p.build_cmd.args, vec!["build", "-p", "wdm-driver"]);
    assert_eq!(p.binary_src, "ws/target/debug/wdm_driver.sys");
}

#[test]
fn toolchain_paths_join_into_the_build_environment() {
    let p = make_plan(
        Profile::Debug,
        TargetArch::Default(CpuArchitecture::Amd64),
        DriverType::Kmdf,
        "driver",
    );
    assert_eq!(
        p.build_cmd.env,
        vec![
            (
                "WDK_INCLUDE_DIRS".to_string(),
                "C:/wdk/include;C:/sdk/include".to_string()
            ),
            ("WDK_LIB_DIRS".to_string(), "C:/wdk/lib".to_string()),
        ]
    );
}

#[test]
fn artifact_set_covers_all_six_files() {
    let p = make_plan(
        Profile::Debug,
        TargetArch::Default(CpuArchitecture::Amd64),
        DriverType::Kmdf,
        "driver",
    );
    let pairs: Vec<(String, String)> = p
        .artifacts
        .iter()
        .map(|a| (a.src.clone(), a.dst.clone()))
        .collect();
    assert_eq!(
        pairs,
        vec![
            (
                "ws/target/debug/driver.sys".to_string(),
                "ws/target/debug/driver_package/driver.sys".to_string()
            ),
            (
                "ws/target/debug/driver.pdb".to_string(),
                "ws/target/debug/driver_package/driver.pdb".to_string()
            ),
            (
                "ws/target/debug/deps/driver.map".to_string(),
                "ws/target/debug/driver_package/driver.map".to_string()
            ),
            (
                "ws/target/debug/driver.inf".to_string(),
                "ws/target/debug/driver_package/driver.inf".to_string()
            ),
            (
                "ws/target/debug/driver.cat".to_string(),
                "ws/target/debug/driver_package/driver.cat".to_string()
            ),
            (
                "ws/target/debug/WDRLocalTestCert.cer".to_string(),
                "ws/target/debug/driver_package/WDRLocalTestCert.cer".to_string()
            ),
        ]
    );

    // no destination doubles as a source, and destinations are distinct:
    // exactly what the copy laws ask of a plan
    for (i, (_, dst)) in pairs.iter().enumerate() {
        assert!(pairs.iter().all(|(s, _)| s != dst));
        assert!(pairs
            .iter()
            .enumerate()
            .all(|(j, (_, d))| i == j || d != dst));
    }
}

#[test]
fn stamping_and_catalog_commands_carry_arch_and_version() {
    let p = PackagePlan::new(
        &BuildParams {
            working_dir: "ws".to_string(),
            profile: Profile::Debug,
            target_arch: TargetArch::Default(CpuArchitecture::Amd64),
            verify_signature: false,
            sample_class: false,
            verbosity_level: 0,
        },
        "driver",
        "ws/member",
        &DriverMetadata {
            driver_type: DriverType::Kmdf,
            inf_template: Some("custom.inx".to_string()),
            driver_version: Some("2.0.1".to_string()),
        },
        &ToolchainConfig { include_paths: vec![], library_paths: vec![] },
    );
    assert_eq!(p.inf_template_src, "ws/member/custom.inx");
    assert_eq!(p.stamp_cmd.program, "stampinf");
    assert_eq!(
        p.stamp_cmd.args,
        vec!["-f", "ws/target/debug/driver.inf", "-a", "amd64", "-v", "2.0.1"]
    );
    assert_eq!(p.catalog_cmd.program, "inf2cat");
    assert_eq!(
        p.catalog_cmd.args,
        vec!["/driver:ws/target/debug", "/os:10_X64"]
    );
    assert_eq!(p.sign_binary_cmd.program, "signtool");
    assert_eq!(
        p.sign_binary_cmd.args,
        vec![
            "sign",
            "/v",
            "/s",
            "PrivateCertStore",
            "/n",
            "WDRLocalTestCert",
            "/fd",
            "SHA256",
            "ws/target/debug/driver.sys"
        ]
    );
}
