//! String utilities and the rendered error messages.

use cargo_wdk::errors::{
    CommandError, FileError, MetadataError, NewDriverError, NewProjectError,
};
use cargo_wdk::text::{quoted_args, str_eq, trim, underscored};

#[test]
fn underscored_replaces_every_dash() {
    assert_eq!(underscored("kmdf-driver"), "kmdf_driver");
    assert_eq!(underscored("a-b-c"), "a_b_c");
    assert_eq!(underscored("plain"), "plain");
    assert_eq!(underscored(""), "");
}

#[test]
fn trim_strips_whitespace_at_both_ends() {
    assert_eq!(trim("  x  "), "x");
    assert_eq!(trim("\r\n value\t"), "value");
    assert_eq!(trim(""), "");
    assert_eq!(trim(" \t "), "");
    assert_eq!(trim("inner space kept"), "inner space kept");
}

#[test]
fn str_eq_is_character_exact() {
    assert!(str_eq("abc", "abc"));
    assert!(!str_eq("abc", "abd"));
    assert!(!str_eq("abc", "ab"));
    assert!(str_eq("", ""));
}

#[test]
fn quoted_args_renders_like_a_debug_list() {
    assert_eq!(quoted_args(&vec![]), "[]");
    assert_eq!(quoted_args(&vec!["--print".to_string()]), "[\"--print\"]");
    assert_eq!(
        quoted_args(&vec!["--print".to_string(), "host-tuple".to_string()]),
        "[\"--print\", \"host-tuple\"]"
    );
}

#[test]
fn command_error_message_names_command_args_and_stdout() {
    let e = CommandError::CommandFailed {
        command: "inf2cat".to_string(),
        args: vec!["/driver:out".to_string()],
        stdout: "bad inf".to_string(),
    };
    assert_eq!(
        e.message(),
        "Command 'inf2cat' with args [\"/driver:out\"] failed \n STDOUT: bad inf"
    );

    let spawn = CommandError::SpawnFailed {
        command: "makecert".to_string(),
        reason: "not found".to_string(),
    };
    assert_eq!(spawn.message(), "Command 'makecert' failed to start: not found");
}

#[test]
fn file_and_metadata_errors_carry_their_context() {
    let f = FileError { path: "out/driver.pdb".to_string(), cause: "denied".to_string() };
    assert_eq!(f.message(), "unable to access path: out/driver.pdb, error: denied");

    let m = MetadataError {
        working_dir: "nowhere".to_string(),
        reason: "no manifest".to_string(),
    };
    assert_eq!(
        m.message(),
        "unable to read workspace metadata from: nowhere, error: no manifest"
    );
}

#[test]
fn new_project_errors_wrap_their_causes() {
    let e = NewProjectError::NewDriver(NewDriverError::TemplateNotFound(
        "kmdf.inx".to_string(),
    ));
    assert_eq!(
        e.message(),
        "Error creating new driver project, error: Template file not found: kmdf.inx"
    );

    let e = NewProjectError::NewDriver(NewDriverError::FileSystem(FileError {
        path: "drivers".to_string(),
        cause: "read-only".to_string(),
    }));
    assert_eq!(
        e.message(),
        "Error creating new driver project, error: File System Error, error: unable to access path: drivers, error: read-only"
    );

    let e = NewProjectError::NewDriver(NewDriverError::Io("broken pipe".to_string()));
    assert_eq!(e.message(), "Error creating new driver project, error: IO Error");

    let e = NewProjectError::NewDriver(NewDriverError::CargoNewCommand(
        CommandError::CommandFailed {
            command: "cargo".to_string(),
            args: vec!["new".to_string()],
            stdout: String::new(),
        },
    ));
    assert_eq!(
        e.message(),
        "Error creating new driver project, error: Error executing cargo new, error: Command 'cargo' with args [\"new\"] failed \n STDOUT: "
    );
}
