//! Target-architecture values and default-architecture resolution. When the
//! caller selects no architecture, the toolchain is asked for its host triple
//! and exactly two triples are recognized; every other answer is an error
//! naming the unsupported triple.

use vstd::prelude::*;
use vstd::string::StringExecFns;
use crate::errors::CommandError;
use crate::provider::CommandOutput;
use crate::text::str_eq;
use crate::text::trim;
use crate::text::trimmed;

verus! {

/// A CPU architecture a driver can be built for.
#[derive(Debug, Clone, Copy, PartialEq, Eq, Structural)]
pub enum CpuArchitecture {
    Amd64,
    Arm64,
}

/// How the target architecture of a build was chosen: selected explicitly by
/// the caller, or detected as the host's default.
#[derive(Debug, Clone, Copy, PartialEq, Eq, Structural)]
pub enum TargetArch {
    Selected(CpuArchitecture),
    Default(CpuArchitecture),
}

impl TargetArch {
    /// The architecture, however it was chosen.
    pub open spec fn spec_arch(&self) -> CpuArchitecture {
        match self {
            TargetArch::Selected(a) => *a,
            TargetArch::Default(a) => *a,
        }
    }

    /// Returns the architecture, however it was chosen.
    pub fn arch(&self) -> (r: CpuArchitecture)
        ensures
            r == self.spec_arch(),
    {
        match self {
            TargetArch::Selected(a) => *a,
            TargetArch::Default(a) => *a,
        }
    }
}

/// Failure to resolve the default target architecture.
#[derive(Debug, Clone)]
pub enum DetectArchError {
    /// The toolchain query could not be run or exited nonzero.
    QueryFailed(CommandError),
    /// The toolchain reported a host triple that is not recognized; carries
    /// the reported text.
    UnsupportedTarget(String),
}

impl DetectArchError {
    /// What `message` returns, as a sequence.
    pub open spec fn message_seq(&self) -> Seq<char> {
        match self {
            DetectArchError::QueryFailed(e) => "Unable to read rustc host tuple: "@
                + e.message_seq(),
            DetectArchError::UnsupportedTarget(t) => "Unsupported default target: "@ + t@
                + ". Only x86_64-pc-windows-msvc and aarch64-pc-windows-msvc are supported.\n If you're on Windows, consider using the --target-arch option to specify a supported architecture."@,
        }
    }

    /// The human-readable description of the failure.
    pub fn message(&self) -> (r: String)
        ensures
            r@ == self.message_seq(),
    {
        match self {
            DetectArchError::QueryFailed(e) => {
                let mut out = String::from_str("Unable to read rustc host tuple: ");
                let detail = e.message();
                out.append(detail.as_str());
                out
            },
            DetectArchError::UnsupportedTarget(t) => {
                let mut out = String::from_str("Unsupported default target: ");
                out.append(t.as_str());
                out.append(
                    ". Only x86_64-pc-windows-msvc and aarch64-pc-windows-msvc are supported.\n If you're on Windows, consider using the --target-arch option to specify a supported architecture.",
                );
                out
            },
        }
    }
}

/// The program that reports the host triple.
pub fn host_triple_program() -> (r: String)
    ensures
        r@ == "rustc"@,
{
    String::from_str("rustc")
}

/// The arguments that make the toolchain print its host triple.
pub fn host_triple_args() -> (r: Vec<String>)
    ensures
        r@.len() == 2,
        r@[0]@ == "--print"@,
        r@[1]@ == "host-tuple"@,
{
    let mut args: Vec<String> = Vec::new();
    args.push(String::from_str("--print"));
    args.push(String::from_str("host-tuple"));
    args
}

/// What the default-architecture resolution answers for a given toolchain
/// reply: the trimmed host triple decides, and exactly two triples are
/// recognized.
pub open spec fn detected_arch(
    result: Result<CommandOutput, CommandError>,
) -> Result<CpuArchitecture, DetectArchError> {
    match result {
        Result::Ok(out) => {
            let t = trimmed(out.stdout@);
            if t == "x86_64-pc-windows-msvc"@ {
                Result::Ok(CpuArchitecture::Amd64)
            } else if t == "aarch64-pc-windows-msvc"@ {
                Result::Ok(CpuArchitecture::Arm64)
            } else {
                Result::Err(DetectArchError::UnsupportedTarget(out.stdout))
            }
        },
        Result::Err(e) => Result::Err(DetectArchError::QueryFailed(e)),
    }
}

/// Resolves the default target architecture from the toolchain's reply to
/// the host-triple query: `x86_64-pc-windows-msvc` means Amd64 and
/// `aarch64-pc-windows-msvc` means Arm64; any other triple, or a failed
/// query, is an error.
pub fn detect_default_target_arch_using_rustc(
    result: Result<CommandOutput, CommandError>,
) -> (r: Result<CpuArchitecture, DetectArchError>)
    ensures
        r == detected_arch(result),
{
    match result {
        Result::Ok(out) => {
            let t = trim(out.stdout.as_str());
            if str_eq(t, "x86_64-pc-windows-msvc") {
                Result::Ok(CpuArchitecture::Amd64)
            } else if str_eq(t, "aarch64-pc-windows-msvc") {
                Result::Ok(CpuArchitecture::Arm64)
            } else {
                Result::Err(DetectArchError::UnsupportedTarget(out.stdout))
            }
        },
        Result::Err(e) => Result::Err(DetectArchError::QueryFailed(e)),
    }
}

} // verus!
