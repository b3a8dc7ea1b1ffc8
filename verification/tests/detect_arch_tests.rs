//! Default-architecture resolution from the toolchain's host-triple reply.

use cargo_wdk::arch::{
    detect_default_target_arch_using_rustc, host_triple_args, host_triple_program,
    CpuArchitecture, DetectArchError,
};
use cargo_wdk::errors::CommandError;
use cargo_wdk::provider::CommandOutput;

fn reply(stdout: &str) -> Result<CommandOutput, CommandError> {
    Ok(CommandOutput {
        stdout: stdout.to_string(),
        stderr: String::new(),
    })
}

fn assert_host_triple_query() {
    let command = host_triple_program();
    let args = host_triple_args();
    println!("command: {command}, args: {args:?}");
    assert_eq!(command, "rustc");
    assert_eq!(args, vec!["--print".to_string(), "host-tuple".to_string()]);
}

#[test]
pub fn given_toolchain_host_tuple_is_x86_64_when_detect_default_arch_from_rustc_is_called_then_it_returns_arch(
) {
    assert_host_triple_query();

    let result = detect_default_target_arch_using_rustc(reply("x86_64-pc-windows-msvc"));

    assert_eq!(result.unwrap(), CpuArchitecture::Amd64);
}

#[test]
pub fn given_toolchain_host_tuple_is_aarch64_when_detect_default_arch_from_rustc_is_called_then_it_returns_arch(
) {
    assert_host_triple_query();

    let result = detect_default_target_arch_using_rustc(reply("aarch64-pc-windows-msvc"));

    assert_eq!(result.unwrap(), CpuArchitecture::Arm64);
}

#[test]
pub fn given_toolchain_host_tuple_is_i686_pc_windows_msvc_when_detect_default_arch_from_rustc_is_called_then_it_returns_error(
) {
    assert_host_triple_query();

    let result = detect_default_target_arch_using_rustc(reply("i686-pc-windows-msvc"));

    assert_eq!(
        result.err().unwrap().message(),
        format!(
            "Unsupported default target: {}. Only x86_64-pc-windows-msvc and \
             aarch64-pc-windows-msvc are supported.\n If you're on Windows, consider using \
             the --target-arch option to specify a supported architecture.",
            "i686-pc-windows-msvc"
        )
    );
}

#[test]
pub fn given_toolchain_host_tuple_is_x86_64_win7_windows_msvc_when_detect_default_arch_from_rustc_is_called_then_it_returns_error(
) {
    assert_host_triple_query();

    let result = detect_default_target_arch_using_rustc(reply("x86_64-win7-windows-msvc"));

    assert_eq!(
        result.err().unwrap().message(),
        format!(
            "Unsupported default target: {}. Only x86_64-pc-windows-msvc and \
             aarch64-pc-windows-msvc are supported.\n If you're on Windows, consider using \
             the --target-arch option to specify a supported architecture.",
            "x86_64-win7-windows-msvc"
        )
    );
}

#[test]
pub fn given_rustc_command_fails_when_detect_default_arch_from_rustc_is_called_then_it_returns_error(
) {
    assert_host_triple_query();

    let result = detect_default_target_arch_using_rustc(Err(CommandError::CommandFailed {
        command: "rustc".to_string(),
        args: vec!["--print".to_string(), "host-tuple".to_string()],
        stdout: "command error".to_string(),
    }));

    assert_eq!(
        result.err().unwrap().message(),
        format!(
            "Unable to read rustc host tuple: Command 'rustc' with args [\"--print\", \
             \"host-tuple\"] failed \n STDOUT: {}",
            "command error"
        )
    );
}

#[test]
fn host_triple_reply_is_trimmed_before_matching() {
    let result = detect_default_target_arch_using_rustc(reply("x86_64-pc-windows-msvc\n"));
    assert_eq!(result.unwrap(), CpuArchitecture::Amd64);

    let result = detect_default_target_arch_using_rustc(reply("  aarch64-pc-windows-msvc \r\n"));
    assert_eq!(result.unwrap(), CpuArchitecture::Arm64);
}

#[test]
fn unsupported_triple_error_carries_untrimmed_reply() {
    let result = detect_default_target_arch_using_rustc(reply("mips-unknown-linux"));
    match result {
        Err(DetectArchError::UnsupportedTarget(t)) => assert_eq!(t, "mips-unknown-linux"),
        _ => panic!("expected an unsupported-target error"),
    }
}
