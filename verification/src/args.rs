//! Argument value types for the subcommands, with the validation rules each
//! value must pass before any action runs: project names, driver types,
//! build profiles and target architectures.

use vstd::prelude::*;
use vstd::string::StringExecFns;
use vstd::string::StrSliceExecFns;
use crate::arch::CpuArchitecture;
use crate::arch::TargetArch;
use crate::errors::InvalidDriverProjectNameError;
use crate::errors::NewProjectArgsError;
use crate::text::char_is_alphabetic;
use crate::text::char_is_alphanumeric;
use crate::text::is_unicode_alphabetic;
use crate::text::is_unicode_alphanumeric;
use crate::text::lower_of;
use crate::text::str_eq;
use crate::text::to_lowercase;

verus! {

/// The three recognized driver architecture kinds.
#[derive(Debug, Clone, Copy, PartialEq, Eq, Structural)]
pub enum DriverType {
    Kmdf,
    Umdf,
    Wdm,
}

/// The build profile of one invocation.
#[derive(Debug, Clone, Copy, PartialEq, Eq, Structural)]
pub enum Profile {
    Debug,
    Release,
}

impl Profile {
    /// The name of the profile's output directory under `target/`.
    pub fn dir_name(&self) -> (r: String)
        ensures
            r@ == (match self {
                Profile::Debug => "debug"@,
                Profile::Release => "release"@,
            }),
    {
        match self {
            Profile::Debug => String::from_str("debug"),
            Profile::Release => String::from_str("release"),
        }
    }
}

/// A character a project name may contain.
pub open spec fn valid_name_char(c: char) -> bool {
    is_unicode_alphanumeric(c) || c == '-' || c == '_'
}

/// A name that a project may not take.
pub open spec fn reserved_project_name(s: Seq<char>) -> bool {
    s == "crate"@ || s == "self"@ || s == "super"@ || s == "extern"@ || s == "_"@
        || s == "-"@ || s == "new"@ || s == "build"@
}

/// A well-formed driver project name: nonempty, only alphanumeric characters
/// with dashes and underscores, opening with an alphabetic character, and
/// not a reserved name.
pub open spec fn valid_project_name(s: Seq<char>) -> bool {
    s.len() > 0 && (forall|i: int| 0 <= i < s.len() ==> valid_name_char(s[i]))
        && is_unicode_alphabetic(s[0]) && !reserved_project_name(s)
}

/// A validated driver project name.
#[derive(Debug, Clone)]
pub struct ProjectNameArg(pub String);

impl ProjectNameArg {
    /// Validates `s` as a driver project name. Accepts exactly the
    /// well-formed names; each rejection names the first rule `s` breaks, in
    /// the order: empty, bad character, bad start, reserved.
    pub fn from_str(s: &str) -> (r: Result<ProjectNameArg, NewProjectArgsError>)
        ensures
            r is Ok <==> valid_project_name(s@),
            (match r {
                Result::Ok(p) => p.0@ == s@,
                Result::Err(e) => (match e {
                    NewProjectArgsError::InvalidDriverProjectNameError(n, d) => n@ == s@
                        && (match d {
                        InvalidDriverProjectNameError::EmptyProjectNameError => s@.len()
                            == 0,
                        InvalidDriverProjectNameError::NonAlphanumericProjectNameError =>
                            s@.len() > 0 && !(forall|i: int|
                                0 <= i < s@.len() ==> valid_name_char(s@[i])),
                        InvalidDriverProjectNameError::InvalidStartCharacter => s@.len()
                            > 0 && (forall|i: int|
                                0 <= i < s@.len() ==> valid_name_char(s@[i]))
                            && !is_unicode_alphabetic(s@[0]),
                        InvalidDriverProjectNameError::ReservedName(rn) => rn@ == s@
                            && reserved_project_name(s@),
                    }),
                    _ => false,
                }),
            }),
    {
        let len = s.unicode_len();
        if len == 0 {
            return Result::Err(NewProjectArgsError::InvalidDriverProjectNameError(
                String::from_str(s),
                InvalidDriverProjectNameError::EmptyProjectNameError,
            ));
        }
        let mut i: usize = 0;
        while i < len
            invariant
                len == s@.len(),
                0 <= i <= len,
                forall|j: int| 0 <= j < i ==> valid_name_char(s@[j]),
            decreases len - i,
        {
            let c = s.get_char(i);
            if !(char_is_alphanumeric(c) || c == '-' || c == '_') {
                return Result::Err(NewProjectArgsError::InvalidDriverProjectNameError(
                    String::from_str(s),
                    InvalidDriverProjectNameError::NonAlphanumericProjectNameError,
                ));
            }
            i += 1;
        }
        let first = s.get_char(0);
        if !char_is_alphabetic(first) {
            return Result::Err(NewProjectArgsError::InvalidDriverProjectNameError(
                String::from_str(s),
                InvalidDriverProjectNameError::InvalidStartCharacter,
            ));
        }
        if str_eq(s, "crate") || str_eq(s, "self") || str_eq(s, "super")
            || str_eq(s, "extern") || str_eq(s, "_") || str_eq(s, "-")
            || str_eq(s, "new") || str_eq(s, "build") {
            return Result::Err(NewProjectArgsError::InvalidDriverProjectNameError(
                String::from_str(s),
                InvalidDriverProjectNameError::ReservedName(String::from_str(s)),
            ));
        }
        Result::Ok(ProjectNameArg(String::from_str(s)))
    }
}

/// The driver type named on the command line.
#[derive(Debug, Clone, Copy, PartialEq, Eq, Structural)]
pub enum DriverTypeArg {
    Kmdf,
    Umdf,
    Wdm,
}

impl DriverTypeArg {
    /// Matches an already-lowercased keyword against the three driver types.
    pub fn parse_lowered(s: &str) -> (r: Option<DriverTypeArg>)
        ensures
            r == Some(DriverTypeArg::Kmdf) <==> s@ == "kmdf"@,
            r == Some(DriverTypeArg::Umdf) <==> s@ == "umdf"@,
            r == Some(DriverTypeArg::Wdm) <==> s@ == "wdm"@,
            r is None <==> (s@ != "kmdf"@ && s@ != "umdf"@ && s@ != "wdm"@),
    {
        proof {
            reveal_strlit("kmdf");
            reveal_strlit("umdf");
            reveal_strlit("wdm");
            assert("kmdf"@[0] == 'k' && "umdf"@[0] == 'u' && "wdm"@[0] == 'w');
            assert("kmdf"@ != "umdf"@ && "kmdf"@ != "wdm"@ && "umdf"@ != "wdm"@);
        }
        if str_eq(s, "kmdf") {
            Some(DriverTypeArg::Kmdf)
        } else if str_eq(s, "umdf") {
            Some(DriverTypeArg::Umdf)
        } else if str_eq(s, "wdm") {
            Some(DriverTypeArg::Wdm)
        } else {
            None
        }
    }

    /// Parses a driver type, ignoring case.
    pub fn from_str(s: &str) -> (r: Result<DriverTypeArg, String>)
        ensures
            r == Result::<DriverTypeArg, String>::Ok(DriverTypeArg::Kmdf) <==> lower_of(
                s@,
            ) == "kmdf"@,
            r == Result::<DriverTypeArg, String>::Ok(DriverTypeArg::Umdf) <==> lower_of(
                s@,
            ) == "umdf"@,
            r == Result::<DriverTypeArg, String>::Ok(DriverTypeArg::Wdm) <==> lower_of(
                s@,
            ) == "wdm"@,
            (match r {
                Result::Err(m) => m@ == "Invalid driver type: "@ + s@,
                Result::Ok(_) => true,
            }),
    {
        let folded = to_lowercase(s);
        match DriverTypeArg::parse_lowered(folded.as_str()) {
            Some(t) => Result::Ok(t),
            None => {
                let e = NewProjectArgsError::InvalidDriverTypeError(String::from_str(s));
                Result::Err(e.message())
            },
        }
    }
}

impl From<DriverTypeArg> for DriverType {
    /// The driver type an argument value stands for.
    fn from(t: DriverTypeArg) -> (r: DriverType) {
        match t {
            DriverTypeArg::Kmdf => DriverType::Kmdf,
            DriverTypeArg::Umdf => DriverType::Umdf,
            DriverTypeArg::Wdm => DriverType::Wdm,
        }
    }
}

impl vstd::std_specs::convert::FromSpecImpl<DriverTypeArg> for DriverType {
    open spec fn obeys_from_spec() -> bool {
        true
    }

    open spec fn from_spec(t: DriverTypeArg) -> DriverType {
        match t {
            DriverTypeArg::Kmdf => DriverType::Kmdf,
            DriverTypeArg::Umdf => DriverType::Umdf,
            DriverTypeArg::Wdm => DriverType::Wdm,
        }
    }
}

/// The build profile named on the command line.
#[derive(Debug, Clone, Copy, PartialEq, Eq, Structural)]
pub enum ProfileArg {
    Debug,
    Release,
}

impl ProfileArg {
    /// Matches an already-lowercased keyword against the two profiles.
    pub fn parse_lowered(s: &str) -> (r: Option<ProfileArg>)
        ensures
            r == Some(ProfileArg::Debug) <==> s@ == "debug"@,
            r == Some(ProfileArg::Release) <==> s@ == "release"@,
            r is None <==> (s@ != "debug"@ && s@ != "release"@),
    {
        proof {
            reveal_strlit("debug");
            reveal_strlit("release");
            assert("debug"@.len() == 5 && "release"@.len() == 7);
            assert("debug"@ != "release"@);
        }
        if str_eq(s, "debug") {
            Some(ProfileArg::Debug)
        } else if str_eq(s, "release") {
            Some(ProfileArg::Release)
        } else {
            None
        }
    }

    /// Parses a build profile, ignoring case.
    pub fn from_str(s: &str) -> (r: Result<ProfileArg, String>)
        ensures
            r == Result::<ProfileArg, String>::Ok(ProfileArg::Debug) <==> lower_of(s@)
                == "debug"@,
            r == Result::<ProfileArg, String>::Ok(ProfileArg::Release) <==> lower_of(s@)
                == "release"@,
            (match r {
                Result::Err(m) => m@ == "'"@ + s@ + "' is not a valid profile"@,
                Result::Ok(_) => true,
            }),
    {
        let folded = to_lowercase(s);
        match ProfileArg::parse_lowered(folded.as_str()) {
            Some(p) => Result::Ok(p),
            None => {
                let mut m = String::from_str("'");
                m.append(s);
                m.append("' is not a valid profile");
                Result::Err(m)
            },
        }
    }
}

impl From<ProfileArg> for Profile {
    /// The profile an argument value stands for.
    fn from(p: ProfileArg) -> (r: Profile) {
        match p {
            ProfileArg::Debug => Profile::Debug,
            ProfileArg::Release => Profile::Release,
        }
    }
}

impl vstd::std_specs::convert::FromSpecImpl<ProfileArg> for Profile {
    open spec fn obeys_from_spec() -> bool {
        true
    }

    open spec fn from_spec(p: ProfileArg) -> Profile {
        match p {
            ProfileArg::Debug => Profile::Debug,
            ProfileArg::Release => Profile::Release,
        }
    }
}

/// The target architecture named on the command line.
#[derive(Debug, Clone, Copy, PartialEq, Eq, Structural)]
pub enum TargetArchArg {
    X64,
    Arm64,
}

impl TargetArchArg {
    /// Matches an already-lowercased keyword against the two architectures.
    pub fn parse_lowered(s: &str) -> (r: Option<TargetArchArg>)
        ensures
            r == Some(TargetArchArg::X64) <==> s@ == "x64"@,
            r == Some(TargetArchArg::Arm64) <==> s@ == "arm64"@,
            r is None <==> (s@ != "x64"@ && s@ != "arm64"@),
    {
        proof {
            reveal_strlit("x64");
            reveal_strlit("arm64");
            assert("x64"@.len() == 3 && "arm64"@.len() == 5);
            assert("x64"@ != "arm64"@);
        }
        if str_eq(s, "x64") {
            Some(TargetArchArg::X64)
        } else if str_eq(s, "arm64") {
            Some(TargetArchArg::Arm64)
        } else {
            None
        }
    }

    /// Parses a target architecture, ignoring case.
    pub fn from_str(s: &str) -> (r: Result<TargetArchArg, String>)
        ensures
            r == Result::<TargetArchArg, String>::Ok(TargetArchArg::X64) <==> lower_of(
                s@,
            ) == "x64"@,
            r == Result::<TargetArchArg, String>::Ok(TargetArchArg::Arm64) <==> lower_of(
                s@,
            ) == "arm64"@,
            (match r {
                Result::Err(m) => m@ == "'"@ + s@
                    + "' is not a valid target architecture"@,
                Result::Ok(_) => true,
            }),
    {
        let folded = to_lowercase(s);
        match TargetArchArg::parse_lowered(folded.as_str()) {
            Some(a) => Result::Ok(a),
            None => {
                let mut m = String::from_str("'");
                m.append(s);
                m.append("' is not a valid target architecture");
                Result::Err(m)
            },
        }
    }
}

impl From<TargetArchArg> for CpuArchitecture {
    /// The architecture an argument value stands for.
    fn from(a: TargetArchArg) -> (r: CpuArchitecture) {
        match a {
            TargetArchArg::X64 => CpuArchitecture::Amd64,
            TargetArchArg::Arm64 => CpuArchitecture::Arm64,
        }
    }
}

impl vstd::std_specs::convert::FromSpecImpl<TargetArchArg> for CpuArchitecture {
    open spec fn obeys_from_spec() -> bool {
        true
    }

    open spec fn from_spec(a: TargetArchArg) -> CpuArchitecture {
        match a {
            TargetArchArg::X64 => CpuArchitecture::Amd64,
            TargetArchArg::Arm64 => CpuArchitecture::Arm64,
        }
    }
}

impl From<TargetArchArg> for TargetArch {
    /// An argument value always selects its architecture explicitly.
    fn from(a: TargetArchArg) -> (r: TargetArch) {
        match a {
            TargetArchArg::X64 => TargetArch::Selected(CpuArchitecture::Amd64),
            TargetArchArg::Arm64 => TargetArch::Selected(CpuArchitecture::Arm64),
        }
    }
}

impl vstd::std_specs::convert::FromSpecImpl<TargetArchArg> for TargetArch {
    open spec fn obeys_from_spec() -> bool {
        true
    }

    open spec fn from_spec(a: TargetArchArg) -> TargetArch {
        match a {
            TargetArchArg::X64 => TargetArch::Selected(CpuArchitecture::Amd64),
            TargetArchArg::Arm64 => TargetArch::Selected(CpuArchitecture::Arm64),
        }
    }
}

/// Arguments of the subcommand that scaffolds a new driver project.
#[derive(Debug, Clone)]
pub struct NewProjectArgs {
    pub driver_project_name: ProjectNameArg,
    pub driver_type: DriverTypeArg,
    pub cwd: String,
}

/// Arguments of the subcommand that packages an already-built project.
#[derive(Debug, Clone)]
pub struct PackageProjectArgs {
    pub cwd: String,
    pub profile: ProfileArg,
    pub target_arch: TargetArchArg,
    pub verify_signature: bool,
    pub sample_class: bool,
}

/// Arguments of the `new` subcommand: exactly one driver-type flag must be
/// set.
#[derive(Debug, Clone)]
pub struct NewCommandArgs {
    pub kmdf: bool,
    pub umdf: bool,
    pub wdm: bool,
    pub path: String,
}

impl NewCommandArgs {
    /// Returns the one selected driver type, or an error when zero or more
    /// than one of the three flags is set.
    pub fn selected_driver_type(&self) -> (r: Result<DriverType, String>)
        ensures
            r is Ok <==> ((self.kmdf && !self.umdf && !self.wdm) || (!self.kmdf
                && self.umdf && !self.wdm) || (!self.kmdf && !self.umdf && self.wdm)),
            (match r {
                Result::Ok(t) => (t == DriverType::Kmdf <==> self.kmdf) && (t
                    == DriverType::Umdf <==> self.umdf) && (t == DriverType::Wdm
                    <==> self.wdm),
                Result::Err(m) => m@
                    == "Please select exactly one driver type: kmdf, umdf, or wdm"@,
            }),
    {
        let mut count: u32 = 0;
        if self.kmdf {
            count += 1;
        }
        if self.umdf {
            count += 1;
        }
        if self.wdm {
            count += 1;
        }
        if count != 1 {
            return Result::Err(String::from_str(
                "Please select exactly one driver type: kmdf, umdf, or wdm",
            ));
        }
        if self.kmdf {
            Result::Ok(DriverType::Kmdf)
        } else if self.umdf {
            Result::Ok(DriverType::Umdf)
        } else {
            Result::Ok(DriverType::Wdm)
        }
    }
}

/// Arguments of the `build` subcommand.
#[derive(Debug, Clone)]
pub struct BuildProjectArgs {
    pub cwd: String,
    pub profile: Option<Profile>,
    pub target_arch: Option<CpuArchitecture>,
    pub verify_signature: bool,
    pub sample: bool,
}

impl BuildProjectArgs {
    /// Whether `arch` is the architecture this invocation builds for: the
    /// explicitly selected one when the arguments name one, a host-detected
    /// default otherwise.
    pub open spec fn resolves_arch(&self, arch: TargetArch) -> bool {
        match self.target_arch {
            Some(a) => arch == TargetArch::Selected(a),
            None => arch is Default,
        }
    }

    /// The build parameters of this invocation: the working directory and
    /// flags as given, the debug profile when none was chosen, and the
    /// resolved target architecture.
    pub fn to_build_params(&self, arch: TargetArch, verbosity_level: u8) -> (r:
        crate::plan::BuildParams)
        requires
            self.resolves_arch(arch),
        ensures
            r.working_dir@ == self.cwd@,
            r.profile == (match self.profile {
                Some(p) => p,
                None => Profile::Debug,
            }),
            r.target_arch == arch,
            r.verify_signature == self.verify_signature,
            r.sample_class == self.sample,
            r.verbosity_level == verbosity_level,
    {
        crate::plan::BuildParams {
            working_dir: String::from_str(self.cwd.as_str()),
            profile: match self.profile {
                Some(p) => p,
                None => Profile::Debug,
            },
            target_arch: arch,
            verify_signature: self.verify_signature,
            sample_class: self.sample,
            verbosity_level,
        }
    }
}

/// The subcommand an invocation chose.
#[derive(Debug, Clone)]
pub enum Subcmd {
    New(NewCommandArgs),
    Build(BuildProjectArgs),
}

/// One parsed command-line invocation.
#[derive(Debug, Clone)]
pub struct Cli {
    pub cargo_command: String,
    pub sub_cmd: Subcmd,
    pub verbose: u8,
}

} // verus!
