//! Reading manifests: package names, workspace member lists, and the
//! three-way driver-kit configuration outcome.

use cargo_wdk::args::DriverType;
use cargo_wdk::manifest::{
    package_driver_config, package_name, workspace_member_dirs, DriverConfigOutcome,
};

const KMDF_MANIFEST: &str = "\
[package]\n\
name = \"driver\"\n\
version = \"0.1.0\"\n\
\n\
[package.metadata.wdk.driver-model]\n\
driver-type = \"KMDF\"\n";

const NON_DRIVER_MANIFEST: &str = "\
[package]\n\
name = \"non_driver_crate\"\n\
version = \"0.1.0\"\n\
\n\
[dependencies]\n";

#[test]
fn parsed_driver_config_names_its_kind() {
    match package_driver_config(KMDF_MANIFEST) {
        DriverConfigOutcome::Parsed(md) => {
            assert_eq!(md.driver_type, DriverType::Kmdf);
            assert!(md.inf_template.is_none());
            assert!(md.driver_version.is_none());
        }
        _ => panic!("expected a parsed driver configuration"),
    }
}

#[test]
fn umdf_and_wdm_kinds_are_recognized() {
    let umdf = "[package.metadata.wdk.driver-model]\ndriver-type = \"UMDF\"\n";
    match package_driver_config(umdf) {
        DriverConfigOutcome::Parsed(md) => assert_eq!(md.driver_type, DriverType::Umdf),
        _ => panic!("expected a parsed driver configuration"),
    }
    let wdm = "[package.metadata.wdk.driver-model]\ndriver-type = \"WDM\"\n";
    match package_driver_config(wdm) {
        DriverConfigOutcome::Parsed(md) => assert_eq!(md.driver_type, DriverType::Wdm),
        _ => panic!("expected a parsed driver configuration"),
    }
}

#[test]
fn optional_keys_are_carried_when_present() {
    let text = "[package.metadata.wdk.driver-model]\n\
                driver-type = \"KMDF\"\n\
                inf-template = \"custom.inx\"\n\
                driver-version = \"2.1.0\"\n";
    match package_driver_config(text) {
        DriverConfigOutcome::Parsed(md) => {
            assert_eq!(md.inf_template.as_deref(), Some("custom.inx"));
            assert_eq!(md.driver_version.as_deref(), Some("2.1.0"));
        }
        _ => panic!("expected a parsed driver configuration"),
    }
}

#[test]
fn absent_section_is_not_an_error() {
    assert!(matches!(
        package_driver_config(NON_DRIVER_MANIFEST),
        DriverConfigOutcome::Absent
    ));
}

#[test]
fn missing_driver_type_key_is_malformed() {
    let text = "[package.metadata.wdk.driver-model]\nkmdf-version-major = 1\n";
    match package_driver_config(text) {
        DriverConfigOutcome::Malformed(e) => assert_eq!(
            e.reason,
            "missing driver-type key in the driver-model section"
        ),
        _ => panic!("expected a malformed configuration"),
    }
}

#[test]
fn unquoted_driver_type_is_malformed() {
    let text = "[package.metadata.wdk.driver-model]\ndriver-type = KMDF\n";
    match package_driver_config(text) {
        DriverConfigOutcome::Malformed(e) => {
            assert_eq!(e.reason, "driver-type value is not a quoted string");
            assert_eq!(
                e.message(),
                "Error Parsing WDK metadata from Cargo.toml: driver-type value is not a quoted string"
            );
        }
        _ => panic!("expected a malformed configuration"),
    }
}

#[test]
fn unknown_driver_type_is_malformed_and_named() {
    let text = "[package.metadata.wdk.driver-model]\ndriver-type = \"VXD\"\n";
    match package_driver_config(text) {
        DriverConfigOutcome::Malformed(e) => {
            assert_eq!(e.reason, "unrecognized driver-type: VXD")
        }
        _ => panic!("expected a malformed configuration"),
    }
}

#[test]
fn package_name_comes_from_the_package_section() {
    assert_eq!(package_name(KMDF_MANIFEST).as_deref(), Some("driver"));
    assert_eq!(
        package_name(NON_DRIVER_MANIFEST).as_deref(),
        Some("non_driver_crate")
    );
    assert!(package_name("[dependencies]\n").is_none());
}

#[test]
fn workspace_members_are_listed_in_order() {
    let root = "[workspace]\nmembers = [\"driver\", \"non_driver_crate\"]\n";
    let members = workspace_member_dirs(root).unwrap().unwrap();
    assert_eq!(members, vec!["driver".to_string(), "non_driver_crate".to_string()]);
}

#[test]
fn single_crate_root_has_no_member_list() {
    assert!(workspace_member_dirs(KMDF_MANIFEST).unwrap().is_none());
}

#[test]
fn empty_member_list_is_allowed() {
    let root = "[workspace]\nmembers = [ ]\n";
    assert_eq!(workspace_member_dirs(root).unwrap().unwrap().len(), 0);
}

#[test]
fn workspace_without_members_key_is_an_error() {
    let root = "[workspace]\nresolver = \"2\"\n";
    assert_eq!(
        workspace_member_dirs(root).err().unwrap(),
        "missing members key in the workspace section"
    );
}

#[test]
fn unquoted_member_entry_is_an_error() {
    let root = "[workspace]\nmembers = [driver]\n";
    assert_eq!(
        workspace_member_dirs(root).err().unwrap(),
        "workspace members must be a bracketed array of quoted strings"
    );
}
