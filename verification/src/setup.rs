//! First-time setup decisions: assembling the platform probe report,
//! recognizing installable components, and the installation checks.
//! The probes themselves (running version commands, testing paths) are
//! platform I/O and live with the embedding program.

use vstd::prelude::*;
use crate::text::str_eq;
use crate::text::str_concat;

verus! {

/// The platform probe report shown during first-time setup.
#[derive(Debug)]
pub struct SystemInfo {
    pub os: String,
    pub arch: String,
    pub node_version: Option<String>,
    pub rust_version: Option<String>,
    pub has_gcc: bool,
    pub has_git: bool,
    pub udesk_installed: bool,
}

/// Mathematical model of the probe report.
#[verifier::ext_equal]
pub struct SystemInfoModel {
    pub os: Seq<char>,
    pub arch: Seq<char>,
    pub node_version: Option<Seq<char>>,
    pub rust_version: Option<Seq<char>>,
    pub has_gcc: bool,
    pub has_git: bool,
    pub udesk_installed: bool,
}

impl View for SystemInfo {
    type V = SystemInfoModel;

    open spec fn view(&self) -> SystemInfoModel {
        SystemInfoModel {
            os: self.os@,
            arch: self.arch@,
            node_version: match self.node_version {
                Some(ref v) => Some(v@),
                None => None,
            },
            rust_version: match self.rust_version {
                Some(ref v) => Some(v@),
                None => None,
            },
            has_gcc: self.has_gcc,
            has_git: self.has_git,
            udesk_installed: self.udesk_installed,
        }
    }
}

/// Assembles the probe report from the individual probe results. A
/// compiler is reported present when either probe found one.
pub fn assemble_system_info(os: String, arch: String, node_version: Option<String>,
    rust_version: Option<String>, found_gcc: bool, found_clang: bool, has_git: bool,
    udesk_installed: bool) -> (r: SystemInfo)
    ensures
        r@.os == os@,
        r@.arch == arch@,
        r@.node_version == (match node_version {
            Some(ref v) => Some::<Seq<char>>(v@),
            None => None::<Seq<char>>,
        }),
        r@.rust_version == (match rust_version {
            Some(ref v) => Some::<Seq<char>>(v@),
            None => None::<Seq<char>>,
        }),
        r@.has_gcc == (found_gcc || found_clang),
        r@.has_git == has_git,
        r@.udesk_installed == udesk_installed,
{
    SystemInfo {
        os,
        arch,
        node_version,
        rust_version,
        has_gcc: found_gcc || found_clang,
        has_git,
        udesk_installed,
    }
}

/// Whether the working tree looks like a complete installation: the
/// build script, the application directory and the core directory all
/// present, by their probed existence flags.
pub fn check_udesk_installation(build_script: bool, app_dir: bool, core_dir: bool) -> (r: bool)
    ensures
        r == (build_script && app_dir && core_dir),
{
    build_script && app_dir && core_dir
}

/// First-time setup is needed when the configuration file or the
/// workspace is missing.
pub fn first_time_setup_needed(config_exists: bool, workspace_exists: bool) -> (r: bool)
    ensures
        r == (!config_exists || !workspace_exists),
{
    !config_exists || !workspace_exists
}

/// The version string reported by a toolchain probe: the probe's
/// trimmed output when it ran and succeeded, nothing otherwise.
pub fn version_from_probe(outcome: &crate::engine::ToolOutcome) -> (r: Option<String>)
    ensures
        (outcome@ matches crate::engine::OutcomeModel::Exited { success: true, stdout, .. }
            ==> (r matches Some(v) && v@ == crate::text::trim_spec(stdout))),
        (outcome@ matches crate::engine::OutcomeModel::Exited { success: false, .. }
            ==> r is None),
        (outcome@ matches crate::engine::OutcomeModel::NotLaunched(_) ==> r is None),
{
    match outcome {
        crate::engine::ToolOutcome::NotLaunched(_) => None,
        crate::engine::ToolOutcome::Exited { success, stdout, stderr: _ } => {
            if *success {
                Some(crate::text::trim(stdout.as_str()))
            } else {
                None
            }
        },
    }
}

/// An installable component of the development toolchain.
#[derive(Clone, Copy, Debug, PartialEq, Eq, Structural)]
pub enum SetupComponent {
    NodeJs,
    Rust,
    BuildTools,
    Workspace,
}

/// The component named by an installation request.
pub open spec fn component_spec(name: Seq<char>) -> Result<SetupComponent, Seq<char>> {
    if name == "nodejs"@ {
        Ok(SetupComponent::NodeJs)
    } else if name == "rust"@ {
        Ok(SetupComponent::Rust)
    } else if name == "build-tools"@ {
        Ok(SetupComponent::BuildTools)
    } else if name == "workspace"@ {
        Ok(SetupComponent::Workspace)
    } else {
        Err("Unknown component: "@ + name)
    }
}

/// Recognizes an installable component by name, or reports the unknown
/// name.
pub fn route_component(name: &str) -> (r: Result<SetupComponent, String>)
    ensures
        (r matches Ok(c) ==> component_spec(name@) == Ok::<SetupComponent, Seq<char>>(c)),
        (r matches Err(m) ==> component_spec(name@) == Err::<SetupComponent, Seq<char>>(m@)),
{
    if str_eq(name, "nodejs") {
        Ok(SetupComponent::NodeJs)
    } else if str_eq(name, "rust") {
        Ok(SetupComponent::Rust)
    } else if str_eq(name, "build-tools") {
        Ok(SetupComponent::BuildTools)
    } else if str_eq(name, "workspace") {
        Ok(SetupComponent::Workspace)
    } else {
        Err(str_concat("Unknown component: ", name))
    }
}

} // verus!
