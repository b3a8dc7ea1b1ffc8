//! The per-package packaging plan: every path and every external tool
//! invocation the pipeline will need, computed up front from the build
//! parameters, the package's driver-kit configuration and the toolchain
//! settings, each with a character-exact contract.

use vstd::prelude::*;
use vstd::string::StringExecFns;
use crate::arch::CpuArchitecture;
use crate::arch::TargetArch;
use crate::args::DriverType;
use crate::args::Profile;
use crate::manifest::DriverMetadata;
use crate::text::underscored;
use crate::text::underscored_seq;

verus! {

/// Build parameters of one invocation, immutable for its duration.
#[derive(Debug, Clone)]
pub struct BuildParams {
    pub working_dir: String,
    pub profile: Profile,
    pub target_arch: TargetArch,
    pub verify_signature: bool,
    pub sample_class: bool,
    pub verbosity_level: u8,
}

/// Architecture-specific toolchain settings the packaging tools need.
#[derive(Debug, Clone)]
pub struct ToolchainConfig {
    pub include_paths: Vec<String>,
    pub library_paths: Vec<String>,
}

/// An external command: program, arguments, environment overrides.
#[derive(Debug, Clone)]
pub struct CommandPlan {
    pub program: String,
    pub args: Vec<String>,
    pub env: Vec<(String, String)>,
}

impl CommandPlan {
    /// The argument list as sequences.
    pub open spec fn args_seq(&self) -> Seq<Seq<char>> {
        self.args@.map_values(|a: String| a@)
    }
}

/// One artifact of the package: where the pipeline produces it and where it
/// must stand in the package directory.
#[derive(Debug, Clone)]
pub struct ArtifactCopy {
    pub src: String,
    pub dst: String,
}

/// The name of the profile's output directory.
pub open spec fn profile_seq(p: Profile) -> Seq<char> {
    match p {
        Profile::Debug => "debug"@,
        Profile::Release => "release"@,
    }
}

/// The target triple of an architecture.
pub open spec fn triple_seq(a: CpuArchitecture) -> Seq<char> {
    match a {
        CpuArchitecture::Amd64 => "x86_64-pc-windows-msvc"@,
        CpuArchitecture::Arm64 => "aarch64-pc-windows-msvc"@,
    }
}

/// The INF-stamping tool's name for an architecture.
pub open spec fn stamp_arch_seq(a: CpuArchitecture) -> Seq<char> {
    match a {
        CpuArchitecture::Amd64 => "amd64"@,
        CpuArchitecture::Arm64 => "arm64"@,
    }
}

/// The catalog tool's OS/architecture selector.
pub open spec fn os_selector_seq(a: CpuArchitecture) -> Seq<char> {
    match a {
        CpuArchitecture::Amd64 => "10_X64"@,
        CpuArchitecture::Arm64 => "10_ARM64"@,
    }
}

/// The extension of the compiled driver binary: kernel-mode kinds build a
/// `.sys`, the user-mode kind a `.dll`.
pub open spec fn binary_ext_seq(k: DriverType) -> Seq<char> {
    match k {
        DriverType::Kmdf => ".sys"@,
        DriverType::Wdm => ".sys"@,
        DriverType::Umdf => ".dll"@,
    }
}

/// The profile output directory of the build: under `target`, inside the
/// triple's directory when the architecture was selected explicitly.
pub open spec fn out_dir_seq(wd: Seq<char>, p: Profile, ta: TargetArch) -> Seq<char> {
    wd + "/target/"@ + (match ta {
        TargetArch::Selected(a) => triple_seq(a) + "/"@,
        TargetArch::Default(_) => Seq::<char>::empty(),
    }) + profile_seq(p)
}

/// The compiler invocation for one member.
pub open spec fn build_args_seq(name: Seq<char>, p: Profile, ta: TargetArch) -> Seq<
    Seq<char>,
> {
    seq!["build"@, "-p"@, name] + (match p {
        Profile::Release => seq!["--release"@],
        Profile::Debug => Seq::<Seq<char>>::empty(),
    }) + (match ta {
        TargetArch::Selected(a) => seq!["--target"@, triple_seq(a)],
        TargetArch::Default(_) => Seq::<Seq<char>>::empty(),
    })
}

/// `parts` joined with `sep` between neighbours.
pub open spec fn joined_with(parts: Seq<Seq<char>>, sep: Seq<char>) -> Seq<char>
    decreases parts.len(),
{
    if parts.len() == 0 {
        Seq::<char>::empty()
    } else if parts.len() == 1 {
        parts[0]
    } else {
        joined_with(parts.drop_last(), sep) + sep + parts.last()
    }
}

/// Joins `parts` with `sep` between neighbours.
pub fn join_with(parts: &Vec<String>, sep: &str) -> (r: String)
    ensures
        r@ == joined_with(parts@.map_values(|p: String| p@), sep@),
{
    let ghost views = parts@.map_values(|p: String| p@);
    let mut out = String::new();
    if parts.len() == 0 {
        proof {
            assert(views =~= Seq::<Seq<char>>::empty());
        }
        return out;
    }
    out.append(parts[0].as_str());
    proof {
        assert(views.subrange(0, 1) =~= seq![views[0]]);
        assert(joined_with(views.subrange(0, 1), sep@) == views[0]);
        assert(out@ == views[0]);
    }
    let mut i: usize = 1;
    while i < parts.len()
        invariant
            1 <= i <= parts.len(),
            views == parts@.map_values(|p: String| p@),
            views.len() == parts@.len(),
            out@ == joined_with(views.subrange(0, i as int), sep@),
        decreases parts.len() - i,
    {
        out.append(sep);
        out.append(parts[i].as_str());
        proof {
            let sub = views.subrange(0, i + 1 as int);
            assert(sub.drop_last() =~= views.subrange(0, i as int));
            assert(sub.last() == views[i as int]);
        }
        i += 1;
    }
    proof {
        assert(views.subrange(0, views.len() as int) =~= views);
    }
    out
}

/// Joins `a` and `b` with a path separator.
pub fn path_join(a: &str, b: &str) -> (r: String)
    ensures
        r@ == a@ + "/"@ + b@,
{
    let mut out = String::from_str(a);
    out.append("/");
    out.append(b);
    out
}

impl DriverMetadata {
    /// The configured driver version, or the default.
    pub open spec fn inf_version_or_default(&self) -> Seq<char> {
        match self.driver_version {
            Some(v) => v@,
            None => "1.0.0"@,
        }
    }

    /// The INF template file name: the configured reference, or the
    /// kind-generic `<name>.inx` beside the manifest.
    pub open spec fn inf_template_or_default(&self, name: Seq<char>) -> Seq<char> {
        match self.inf_template {
            Some(t) => t@,
            None => underscored_seq(name) + ".inx"@,
        }
    }
}

/// The six artifact copies of a package as (source, destination) pairs:
/// binary, symbols, linker map, stamped INF, catalog and certificate, each
/// copied from the profile output directory into the package directory.
pub open spec fn artifact_pairs(out: Seq<char>, u: Seq<char>, ext: Seq<char>) -> Seq<
    (Seq<char>, Seq<char>),
> {
    let pkg = out + "/"@ + u + "_package"@;
    seq![
        (out + "/"@ + u + ext, pkg + "/"@ + u + ext),
        (out + "/"@ + u + ".pdb"@, pkg + "/"@ + u + ".pdb"@),
        (out + "/deps/"@ + u + ".map"@, pkg + "/"@ + u + ".map"@),
        (out + "/"@ + u + ".inf"@, pkg + "/"@ + u + ".inf"@),
        (out + "/"@ + u + ".cat"@, pkg + "/"@ + u + ".cat"@),
        (out + "/WDRLocalTestCert.cer"@, pkg + "/WDRLocalTestCert.cer"@),
    ]
}

/// Everything the packaging pipeline of one driver member will touch:
/// paths, tool invocations and the artifact set, all computed up front.
#[derive(Debug, Clone)]
pub struct PackagePlan {
    pub name: String,
    pub underscored_name: String,
    pub kind: DriverType,
    pub verify_signature: bool,
    pub sample_class: bool,
    pub out_dir: String,
    pub package_dir: String,
    pub binary_src: String,
    pub inf_src: String,
    pub cat_src: String,
    pub cert_src: String,
    pub inf_template_src: String,
    pub build_cmd: CommandPlan,
    pub stamp_cmd: CommandPlan,
    pub catalog_cmd: CommandPlan,
    pub makecert_cmd: CommandPlan,
    pub certmgr_cmd: CommandPlan,
    pub sign_binary_cmd: CommandPlan,
    pub sign_catalog_cmd: CommandPlan,
    pub verify_binary_cmd: CommandPlan,
    pub verify_catalog_cmd: CommandPlan,
    pub artifacts: Vec<ArtifactCopy>,
}

impl PackagePlan {
    /// Whether the signing-verification sub-steps run: when the caller asked
    /// for verification, and always for sample-class builds.
    pub open spec fn runs_verify(&self) -> bool {
        self.verify_signature || self.sample_class
    }

    /// The artifact set as (source, destination) pairs.
    pub open spec fn artifact_pair_views(&self) -> Seq<(Seq<char>, Seq<char>)> {
        self.artifacts@.map_values(|a: ArtifactCopy| (a.src@, a.dst@))
    }

    /// Computes the full plan of one driver member.
    pub fn new(
        params: &BuildParams,
        name: &str,
        root_dir: &str,
        md: &DriverMetadata,
        toolchain: &ToolchainConfig,
    ) -> (p: PackagePlan)
        ensures
            p.name@ == name@,
            p.underscored_name@ == underscored_seq(name@),
            p.kind == md.driver_type,
            p.verify_signature == params.verify_signature,
            p.sample_class == params.sample_class,
            p.out_dir@ == out_dir_seq(
                params.working_dir@,
                params.profile,
                params.target_arch,
            ),
            p.package_dir@ == p.out_dir@ + "/"@ + underscored_seq(name@) + "_package"@,
            p.binary_src@ == p.out_dir@ + "/"@ + underscored_seq(name@) + binary_ext_seq(
                md.driver_type,
            ),
            p.inf_src@ == p.out_dir@ + "/"@ + underscored_seq(name@) + ".inf"@,
            p.cat_src@ == p.out_dir@ + "/"@ + underscored_seq(name@) + ".cat"@,
            p.cert_src@ == p.out_dir@ + "/WDRLocalTestCert.cer"@,
            p.inf_template_src@ == root_dir@ + "/"@ + md.inf_template_or_default(name@),
            p.build_cmd.program@ == "cargo"@,
            p.build_cmd.args_seq() == build_args_seq(
                name@,
                params.profile,
                params.target_arch,
            ),
            p.build_cmd.env@.len() == 2,
            p.build_cmd.env@[0].0@ == "WDK_INCLUDE_DIRS"@,
            p.build_cmd.env@[0].1@ == joined_with(
                toolchain.include_paths@.map_values(|s: String| s@),
                ";"@,
            ),
            p.build_cmd.env@[1].0@ == "WDK_LIB_DIRS"@,
            p.build_cmd.env@[1].1@ == joined_with(
                toolchain.library_paths@.map_values(|s: String| s@),
                ";"@,
            ),
            p.stamp_cmd.program@ == "stampinf"@,
            p.stamp_cmd.args_seq() == seq![
                "-f"@,
                p.inf_src@,
                "-a"@,
                stamp_arch_seq(params.target_arch.spec_arch()),
                "-v"@,
                md.inf_version_or_default(),
            ],
            p.stamp_cmd.env@.len() == 0,
            p.catalog_cmd.program@ == "inf2cat"@,
            p.catalog_cmd.args_seq() == seq![
                "/driver:"@ + p.out_dir@,
                "/os:"@ + os_selector_seq(params.target_arch.spec_arch()),
            ],
            p.catalog_cmd.env@.len() == 0,
            p.makecert_cmd.program@ == "makecert"@,
            p.makecert_cmd.args_seq() == seq![
                "-r"@,
                "-pe"@,
                "-ss"@,
                "PrivateCertStore"@,
                "-n"@,
                "CN=WDRLocalTestCert"@,
                p.cert_src@,
            ],
            p.makecert_cmd.env@.len() == 0,
            p.certmgr_cmd.program@ == "certmgr"@,
            p.certmgr_cmd.args_seq() == seq![
                "/add"@,
                p.cert_src@,
                "/s"@,
                "/r"@,
                "localMachine"@,
                "root"@,
            ],
            p.certmgr_cmd.env@.len() == 0,
            p.sign_binary_cmd.program@ == "signtool"@,
            p.sign_binary_cmd.args_seq() == sign_args_seq(p.binary_src@),
            p.sign_binary_cmd.env@.len() == 0,
            p.sign_catalog_cmd.program@ == "signtool"@,
            p.sign_catalog_cmd.args_seq() == sign_args_seq(p.cat_src@),
            p.sign_catalog_cmd.env@.len() == 0,
            p.verify_binary_cmd.program@ == "signtool"@,
            p.verify_binary_cmd.args_seq() == verify_args_seq(p.binary_src@),
            p.verify_binary_cmd.env@.len() == 0,
            p.verify_catalog_cmd.program@ == "signtool"@,
            p.verify_catalog_cmd.args_seq() == verify_args_seq(p.cat_src@),
            p.verify_catalog_cmd.env@.len() == 0,
            p.artifacts@.len() == 6,
            p.artifacts@[0].src@ == p.binary_src@,
            p.artifacts@[0].dst@ == p.package_dir@ + "/"@ + underscored_seq(name@)
                + binary_ext_seq(md.driver_type),
            p.artifacts@[1].src@ == p.out_dir@ + "/"@ + underscored_seq(name@) + ".pdb"@,
            p.artifacts@[1].dst@ == p.package_dir@ + "/"@ + underscored_seq(name@)
                + ".pdb"@,
            p.artifacts@[2].src@ == p.out_dir@ + "/deps/"@ + underscored_seq(name@)
                + ".map"@,
            p.artifacts@[2].dst@ == p.package_dir@ + "/"@ + underscored_seq(name@)
                + ".map"@,
            p.artifacts@[3].src@ == p.inf_src@,
            p.artifacts@[3].dst@ == p.package_dir@ + "/"@ + underscored_seq(name@)
                + ".inf"@,
            p.artifacts@[4].src@ == p.cat_src@,
            p.artifacts@[4].dst@ == p.package_dir@ + "/"@ + underscored_seq(name@)
                + ".cat"@,
            p.artifacts@[5].src@ == p.cert_src@,
            p.artifacts@[5].dst@ == p.package_dir@ + "/WDRLocalTestCert.cer"@,
            p.artifact_pair_views() == artifact_pairs(
                p.out_dir@,
                underscored_seq(name@),
                binary_ext_seq(md.driver_type),
            ),
    {
        let uname = underscored(name);
        let arch = params.target_arch.arch();

        let mut out_dir = String::from_str(params.working_dir.as_str());
        out_dir.append("/target/");
        match params.target_arch {
            TargetArch::Selected(a) => {
                match a {
                    CpuArchitecture::Amd64 => out_dir.append("x86_64-pc-windows-msvc"),
                    CpuArchitecture::Arm64 => out_dir.append("aarch64-pc-windows-msvc"),
                }
                out_dir.append("/");
            },
            TargetArch::Default(_) => {},
        }
        match params.profile {
            Profile::Debug => out_dir.append("debug"),
            Profile::Release => out_dir.append("release"),
        }
        proof {
            assert(out_dir@ =~= out_dir_seq(
                params.working_dir@,
                params.profile,
                params.target_arch,
            ));
        }

        let mut package_dir = String::from_str(out_dir.as_str());
        package_dir.append("/");
        package_dir.append(uname.as_str());
        package_dir.append("_package");

        let ext: &str = match md.driver_type {
            DriverType::Kmdf => ".sys",
            DriverType::Wdm => ".sys",
            DriverType::Umdf => ".dll",
        };
        let mut binary_src = String::from_str(out_dir.as_str());
        binary_src.append("/");
        binary_src.append(uname.as_str());
        binary_src.append(ext);

        let mut inf_src = String::from_str(out_dir.as_str());
        inf_src.append("/");
        inf_src.append(uname.as_str());
        inf_src.append(".inf");

        let mut cat_src = String::from_str(out_dir.as_str());
        cat_src.append("/");
        cat_src.append(uname.as_str());
        cat_src.append(".cat");

        let mut cert_src = String::from_str(out_dir.as_str());
        cert_src.append("/WDRLocalTestCert.cer");

        let mut inf_template_src = String::from_str(root_dir);
        inf_template_src.append("/");
        match &md.inf_template {
            Some(t) => inf_template_src.append(t.as_str()),
            None => {
                inf_template_src.append(uname.as_str());
                inf_template_src.append(".inx");
            },
        }

        let build_cmd = build_command(params, name, toolchain);
        let stamp_cmd = stamp_command(&inf_src, arch, md);
        let catalog_cmd = catalog_command(&out_dir, arch);
        let makecert_cmd = makecert_command(&cert_src);
        let certmgr_cmd = certmgr_command(&cert_src);
        let sign_binary_cmd = sign_command(&binary_src);
        let sign_catalog_cmd = sign_command(&cat_src);
        let verify_binary_cmd = verify_command(&binary_src);
        let verify_catalog_cmd = verify_command(&cat_src);

        let mut artifacts: Vec<ArtifactCopy> = Vec::new();
        artifacts.push(ArtifactCopy {
            src: String::from_str(binary_src.as_str()),
            dst: {
                let mut d = String::from_str(package_dir.as_str());
                d.append("/");
                d.append(uname.as_str());
                d.append(ext);
                d
            },
        });
        artifacts.push(ArtifactCopy {
            src: {
                let mut sp = String::from_str(out_dir.as_str());
                sp.append("/");
                sp.append(uname.as_str());
                sp.append(".pdb");
                sp
            },
            dst: {
                let mut d = String::from_str(package_dir.as_str());
                d.append("/");
                d.append(uname.as_str());
                d.append(".pdb");
                d
            },
        });
        artifacts.push(ArtifactCopy {
            src: {
                let mut sp = String::from_str(out_dir.as_str());
                sp.append("/deps/");
                sp.append(uname.as_str());
                sp.append(".map");
                sp
            },
            dst: {
                let mut d = String::from_str(package_dir.as_str());
                d.append("/");
                d.append(uname.as_str());
                d.append(".map");
                d
            },
        });
        artifacts.push(ArtifactCopy {
            src: String::from_str(inf_src.as_str()),
            dst: {
                let mut d = String::from_str(package_dir.as_str());
                d.append("/");
                d.append(uname.as_str());
                d.append(".inf");
                d
            },
        });
        artifacts.push(ArtifactCopy {
            src: String::from_str(cat_src.as_str()),
            dst: {
                let mut d = String::from_str(package_dir.as_str());
                d.append("/");
                d.append(uname.as_str());
                d.append(".cat");
                d
            },
        });
        artifacts.push(ArtifactCopy {
            src: String::from_str(cert_src.as_str()),
            dst: {
                let mut d = String::from_str(package_dir.as_str());
                d.append("/WDRLocalTestCert.cer");
                d
            },
        });

        proof {
            let pairs = artifact_pairs(out_dir@, uname@, binary_ext_seq(md.driver_type));
            let views = artifacts@.map_values(|a: ArtifactCopy| (a.src@, a.dst@));
            assert(views[0].0 =~= pairs[0].0);
            assert(views[0].1 =~= pairs[0].1);
            assert(views[1].0 =~= pairs[1].0);
            assert(views[1].1 =~= pairs[1].1);
            assert(views[2].0 =~= pairs[2].0);
            assert(views[2].1 =~= pairs[2].1);
            assert(views[3].0 =~= pairs[3].0);
            assert(views[3].1 =~= pairs[3].1);
            assert(views[4].0 =~= pairs[4].0);
            assert(views[4].1 =~= pairs[4].1);
            assert(views[5].0 =~= pairs[5].0);
            assert(views[5].1 =~= pairs[5].1);
            assert(views =~= pairs);
        }
        PackagePlan {
            name: String::from_str(name),
            underscored_name: uname,
            kind: md.driver_type,
            verify_signature: params.verify_signature,
            sample_class: params.sample_class,
            out_dir,
            package_dir,
            binary_src,
            inf_src,
            cat_src,
            cert_src,
            inf_template_src,
            build_cmd,
            stamp_cmd,
            catalog_cmd,
            makecert_cmd,
            certmgr_cmd,
            sign_binary_cmd,
            sign_catalog_cmd,
            verify_binary_cmd,
            verify_catalog_cmd,
            artifacts,
        }
    }
}

/// The signing tool's invocation for one file.
pub open spec fn sign_args_seq(target: Seq<char>) -> Seq<Seq<char>> {
    seq![
        "sign"@,
        "/v"@,
        "/s"@,
        "PrivateCertStore"@,
        "/n"@,
        "WDRLocalTestCert"@,
        "/fd"@,
        "SHA256"@,
        target,
    ]
}

/// The signing tool's verification invocation for one file.
pub open spec fn verify_args_seq(target: Seq<char>) -> Seq<Seq<char>> {
    seq!["verify"@, "/v"@, "/pa"@, target]
}

/// Assembles the compiler invocation of one member.
fn build_command(params: &BuildParams, name: &str, toolchain: &ToolchainConfig) -> (c:
    CommandPlan)
    ensures
        c.program@ == "cargo"@,
        c.args_seq() == build_args_seq(name@, params.profile, params.target_arch),
        c.env@.len() == 2,
        c.env@[0].0@ == "WDK_INCLUDE_DIRS"@,
        c.env@[0].1@ == joined_with(
            toolchain.include_paths@.map_values(|s: String| s@),
            ";"@,
        ),
        c.env@[1].0@ == "WDK_LIB_DIRS"@,
        c.env@[1].1@ == joined_with(
            toolchain.library_paths@.map_values(|s: String| s@),
            ";"@,
        ),
{
    let mut args: Vec<String> = Vec::new();
    args.push(String::from_str("build"));
    args.push(String::from_str("-p"));
    args.push(String::from_str(name));
    match params.profile {
        Profile::Release => args.push(String::from_str("--release")),
        Profile::Debug => {},
    }
    match params.target_arch {
        TargetArch::Selected(a) => {
            args.push(String::from_str("--target"));
            match a {
                CpuArchitecture::Amd64 => args.push(
                    String::from_str("x86_64-pc-windows-msvc"),
                ),
                CpuArchitecture::Arm64 => args.push(
                    String::from_str("aarch64-pc-windows-msvc"),
                ),
            }
        },
        TargetArch::Default(_) => {},
    }
    let mut env: Vec<(String, String)> = Vec::new();
    env.push(
        (String::from_str("WDK_INCLUDE_DIRS"), join_with(&toolchain.include_paths, ";")),
    );
    env.push(
        (String::from_str("WDK_LIB_DIRS"), join_with(&toolchain.library_paths, ";")),
    );
    proof {
        assert(args@.map_values(|a: String| a@) =~= build_args_seq(
            name@,
            params.profile,
            params.target_arch,
        ));
    }
    CommandPlan { program: String::from_str("cargo"), args, env }
}

/// Assembles the INF-stamping invocation.
fn stamp_command(inf_src: &String, arch: CpuArchitecture, md: &DriverMetadata) -> (c:
    CommandPlan)
    ensures
        c.program@ == "stampinf"@,
        c.args_seq() == seq![
            "-f"@,
            inf_src@,
            "-a"@,
            stamp_arch_seq(arch),
            "-v"@,
            md.inf_version_or_default(),
        ],
        c.env@.len() == 0,
{
    let mut args: Vec<String> = Vec::new();
    args.push(String::from_str("-f"));
    args.push(String::from_str(inf_src.as_str()));
    args.push(String::from_str("-a"));
    match arch {
        CpuArchitecture::Amd64 => args.push(String::from_str("amd64")),
        CpuArchitecture::Arm64 => args.push(String::from_str("arm64")),
    }
    args.push(String::from_str("-v"));
    match &md.driver_version {
        Some(v) => args.push(String::from_str(v.as_str())),
        None => args.push(String::from_str("1.0.0")),
    }
    proof {
        assert(args@.map_values(|a: String| a@) =~= seq![
            "-f"@,
            inf_src@,
            "-a"@,
            stamp_arch_seq(arch),
            "-v"@,
            md.inf_version_or_default(),
        ]);
    }
    CommandPlan { program: String::from_str("stampinf"), args, env: Vec::new() }
}

/// Assembles the catalog-generation invocation.
fn catalog_command(out_dir: &String, arch: CpuArchitecture) -> (c: CommandPlan)
    ensures
        c.program@ == "inf2cat"@,
        c.args_seq() == seq![
            "/driver:"@ + out_dir@,
            "/os:"@ + os_selector_seq(arch),
        ],
        c.env@.len() == 0,
{
    let mut args: Vec<String> = Vec::new();
    let mut driver_arg = String::from_str("/driver:");
    driver_arg.append(out_dir.as_str());
    args.push(driver_arg);
    let mut os_arg = String::from_str("/os:");
    match arch {
        CpuArchitecture::Amd64 => os_arg.append("10_X64"),
        CpuArchitecture::Arm64 => os_arg.append("10_ARM64"),
    }
    args.push(os_arg);
    proof {
        assert(args@.map_values(|a: String| a@) =~= seq![
            "/driver:"@ + out_dir@,
            "/os:"@ + os_selector_seq(arch),
        ]);
    }
    CommandPlan { program: String::from_str("inf2cat"), args, env: Vec::new() }
}

/// Assembles the test-certificate creation invocation.
fn makecert_command(cert_src: &String) -> (c: CommandPlan)
    ensures
        c.program@ == "makecert"@,
        c.args_seq() == seq![
            "-r"@,
            "-pe"@,
            "-ss"@,
            "PrivateCertStore"@,
            "-n"@,
            "CN=WDRLocalTestCert"@,
            cert_src@,
        ],
        c.env@.len() == 0,
{
    let mut args: Vec<String> = Vec::new();
    args.push(String::from_str("-r"));
    args.push(String::from_str("-pe"));
    args.push(String::from_str("-ss"));
    args.push(String::from_str("PrivateCertStore"));
    args.push(String::from_str("-n"));
    args.push(String::from_str("CN=WDRLocalTestCert"));
    args.push(String::from_str(cert_src.as_str()));
    proof {
        assert(args@.map_values(|a: String| a@) =~= seq![
            "-r"@,
            "-pe"@,
            "-ss"@,
            "PrivateCertStore"@,
            "-n"@,
            "CN=WDRLocalTestCert"@,
            cert_src@,
        ]);
    }
    CommandPlan { program: String::from_str("makecert"), args, env: Vec::new() }
}

/// Assembles the certificate-store import invocation.
fn certmgr_command(cert_src: &String) -> (c: CommandPlan)
    ensures
        c.program@ == "certmgr"@,
        c.args_seq() == seq![
            "/add"@,
            cert_src@,
            "/s"@,
            "/r"@,
            "localMachine"@,
            "root"@,
        ],
        c.env@.len() == 0,
{
    let mut args: Vec<String> = Vec::new();
    args.push(String::from_str("/add"));
    args.push(String::from_str(cert_src.as_str()));
    args.push(String::from_str("/s"));
    args.push(String::from_str("/r"));
    args.push(String::from_str("localMachine"));
    args.push(String::from_str("root"));
    proof {
        assert(args@.map_values(|a: String| a@) =~= seq![
            "/add"@,
            cert_src@,
            "/s"@,
            "/r"@,
            "localMachine"@,
            "root"@,
        ]);
    }
    CommandPlan { program: String::from_str("certmgr"), args, env: Vec::new() }
}

/// Assembles a signing invocation for one file.
fn sign_command(target: &String) -> (c: CommandPlan)
    ensures
        c.program@ == "signtool"@,
        c.args_seq() == sign_args_seq(target@),
        c.env@.len() == 0,
{
    let mut args: Vec<String> = Vec::new();
    args.push(String::from_str("sign"));
    args.push(String::from_str("/v"));
    args.push(String::from_str("/s"));
    args.push(String::from_str("PrivateCertStore"));
    args.push(String::from_str("/n"));
    args.push(String::from_str("WDRLocalTestCert"));
    args.push(String::from_str("/fd"));
    args.push(String::from_str("SHA256"));
    args.push(String::from_str(target.as_str()));
    proof {
        assert(args@.map_values(|a: String| a@) =~= sign_args_seq(target@));
    }
    CommandPlan { program: String::from_str("signtool"), args, env: Vec::new() }
}

/// Assembles a signature-verification invocation for one file.
fn verify_command(target: &String) -> (c: CommandPlan)
    ensures
        c.program@ == "signtool"@,
        c.args_seq() == verify_args_seq(target@),
        c.env@.len() == 0,
{
    let mut args: Vec<String> = Vec::new();
    args.push(String::from_str("verify"));
    args.push(String::from_str("/v"));
    args.push(String::from_str("/pa"));
    args.push(String::from_str(target.as_str()));
    proof {
        assert(args@.map_values(|a: String| a@) =~= verify_args_seq(target@));
    }
    CommandPlan { program: String::from_str("signtool"), args, env: Vec::new() }
}

} // verus!
