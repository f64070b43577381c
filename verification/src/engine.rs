//! The interface to the external container/process engine and the OS
//! maintenance tooling: verified builders for the exact tool
//! invocations the system issues, and verified interpretation of their
//! outcomes. The invocations themselves are performed by the embedding
//! program; nothing here performs I/O except the narrow trusted
//! wrappers for fresh identifiers, the current time, and path probes.

use vstd::prelude::*;
use crate::text::str_concat;
use crate::text::push_string;
use crate::text::trim_spec;
use crate::registry::ContainerConfig;
use crate::registry::ConfigModel;
use crate::registry::ContainerStatus;
use crate::route::UcodeError;
use crate::route::ErrorModel;

verus! {

/// One external tool invocation: the program and its arguments, in
/// order. Built by the verified planners below and carried out by the
/// embedding program.
#[derive(Debug, Clone)]
pub struct ToolInvocation {
    pub program: String,
    pub args: Vec<String>,
}

/// Mathematical model of a `ToolInvocation`.
#[verifier::ext_equal]
pub struct InvocationModel {
    pub program: Seq<char>,
    pub args: Seq<Seq<char>>,
}

impl View for ToolInvocation {
    type V = InvocationModel;

    open spec fn view(&self) -> InvocationModel {
        InvocationModel { program: self.program@, args: self.args.deep_view() }
    }
}

/// The models of a sequence of invocations.
pub open spec fn invocation_models(s: Seq<ToolInvocation>) -> Seq<InvocationModel> {
    s.map_values(|t: ToolInvocation| t@)
}

/// What became of one external tool invocation: either the tool could
/// not be started at all, or it ran and exited.
#[derive(Debug, Clone)]
pub enum ToolOutcome {
    NotLaunched(String),
    Exited { success: bool, stdout: String, stderr: String },
}

/// Mathematical model of a `ToolOutcome`.
pub enum OutcomeModel {
    NotLaunched(Seq<char>),
    Exited { success: bool, stdout: Seq<char>, stderr: Seq<char> },
}

impl View for ToolOutcome {
    type V = OutcomeModel;

    open spec fn view(&self) -> OutcomeModel {
        match self {
            ToolOutcome::NotLaunched(e) => OutcomeModel::NotLaunched(e@),
            ToolOutcome::Exited { success, stdout, stderr } => OutcomeModel::Exited {
                success: *success,
                stdout: stdout@,
                stderr: stderr@,
            },
        }
    }
}

/// Relies on `chrono::Utc::now().to_rfc3339()`: the current time
/// rendered as a non-empty RFC 3339 timestamp.
#[verifier::external_body]
pub(crate) fn now_rfc3339() -> (r: String)
    ensures
        r@.len() > 0,
{
    chrono::Utc::now().to_rfc3339()
}

/// Relies on `uuid::Uuid::new_v4()` and its display form: a fresh
/// random identifier rendered in the 36-character hyphenated format.
#[verifier::external_body]
fn fresh_uuid_string() -> (r: String)
    ensures
        r@.len() == 36,
{
    uuid::Uuid::new_v4().to_string()
}

/// Relies on `std::path::Path::exists`: whether the path currently
/// names an existing filesystem entry. The result depends on the state
/// of the disk, so nothing is promised of it.
#[verifier::external_body]
pub fn path_exists(path: &str) -> bool {
    std::path::Path::new(path).exists()
}

/// Synthesizes a locally-unique display name for a new environment:
/// `udesk-` followed by the first eight characters of a fresh random
/// identifier.
pub fn synthesize_container_name() -> (r: String)
    ensures
        r@.len() == 14,
        r@.subrange(0, 6) == "udesk-"@,
{
    let u = fresh_uuid_string();
    let prefix = u.as_str().substring_char(0, 8);
    let r = str_concat("udesk-", prefix);
    proof {
        reveal_strlit("udesk-");
        assert(r@.subrange(0, 6) =~= "udesk-"@);
    }
    r
}

/// The bind-mount argument for one extension bundle.
pub open spec fn extension_mount_arg(e: Seq<char>) -> Seq<char> {
    "./extensions/"@ + e + ":/opt/udesk/extensions/"@ + e
}

/// The mount arguments for a sequence of extension bundles, one `-v`
/// mount per bundle, in the given order.
pub open spec fn extension_mount_args(exts: Seq<Seq<char>>) -> Seq<Seq<char>>
    decreases exts.len(),
{
    if exts.len() == 0 {
        Seq::empty()
    } else {
        extension_mount_args(exts.drop_last()) + seq!["-v"@, extension_mount_arg(exts.last())]
    }
}

/// The full provisioning argument list: detached run under the given
/// display name, the workspace bind mount, display forwarding, the two
/// fixed published ports, theme and role environment variables, the
/// working directory pinned to the workspace, one mount per extension,
/// then the image and its fixed entrypoint.
pub open spec fn provision_args_spec(c: ConfigModel, name: Seq<char>) -> Seq<Seq<char>> {
    seq![
        "run"@,
        "-d"@,
        "--name"@,
        name,
        "-v"@,
        c.workspace_path + ":/workspace"@,
        "-v"@,
        "/tmp/.X11-unix:/tmp/.X11-unix"@,
        "-p"@,
        "2222:22"@,
        "-p"@,
        "8080:8080"@,
        "-e"@,
        "UDESK_THEME="@ + c.theme,
        "-e"@,
        "UDESK_ROLE="@ + c.role,
        "-e"@,
        "DISPLAY=:0"@,
        "--workdir"@,
        "/workspace"@,
    ] + extension_mount_args(c.extensions) + seq![c.image, "/usr/local/bin/udos"@]
}

/// Plans the engine invocation that provisions a new environment.
pub fn provision_invocation(config: &ContainerConfig, container_name: &str) -> (r: ToolInvocation)
    ensures
        r@.program == "docker"@,
        r@.args == provision_args_spec(config@, container_name@),
{
    let mut args: Vec<String> = Vec::new();
    push_string(&mut args, "run");
    push_string(&mut args, "-d");
    push_string(&mut args, "--name");
    push_string(&mut args, container_name);
    push_string(&mut args, "-v");
    let ws_mount = str_concat(config.workspace_path.as_str(), ":/workspace");
    push_string(&mut args, ws_mount.as_str());
    push_string(&mut args, "-v");
    push_string(&mut args, "/tmp/.X11-unix:/tmp/.X11-unix");
    push_string(&mut args, "-p");
    push_string(&mut args, "2222:22");
    push_string(&mut args, "-p");
    push_string(&mut args, "8080:8080");
    push_string(&mut args, "-e");
    let theme_env = str_concat("UDESK_THEME=", config.theme.as_str());
    push_string(&mut args, theme_env.as_str());
    push_string(&mut args, "-e");
    let role_env = str_concat("UDESK_ROLE=", config.role.as_str());
    push_string(&mut args, role_env.as_str());
    push_string(&mut args, "-e");
    push_string(&mut args, "DISPLAY=:0");
    push_string(&mut args, "--workdir");
    push_string(&mut args, "/workspace");
    let ghost fixed = args.deep_view();
    proof {
        assert(fixed =~= provision_args_spec(config@, container_name@).subrange(0, 20));
    }
    let n = config.extensions.len();
    let mut i: usize = 0;
    while i < n
        invariant
            i <= n,
            n == config.extensions@.len(),
            config@.extensions.len() == n,
            args.deep_view() == fixed + extension_mount_args(config@.extensions.take(i as int)),
        decreases n - i,
    {
        push_string(&mut args, "-v");
        let mount = str_concat(
            str_concat(
                str_concat("./extensions/", config.extensions[i].as_str()).as_str(),
                ":/opt/udesk/extensions/",
            ).as_str(),
            config.extensions[i].as_str(),
        );
        push_string(&mut args, mount.as_str());
        proof {
            let exts = config@.extensions;
            assert(exts.take(i as int + 1).drop_last() =~= exts.take(i as int));
            assert(exts.take(i as int + 1).last() == exts[i as int]);
            assert(exts[i as int] == config.extensions@[i as int]@);
            assert(mount@ == extension_mount_arg(exts[i as int]));
            assert(args.deep_view() =~= fixed + extension_mount_args(exts.take(i as int + 1)));
        }
        i += 1;
    }
    proof {
        assert(config@.extensions.take(n as int) =~= config@.extensions);
    }
    push_string(&mut args, config.image.as_str());
    push_string(&mut args, "/usr/local/bin/udos");
    proof {
        assert(args.deep_view() =~= provision_args_spec(config@, container_name@));
    }
    ToolInvocation { program: "docker".to_owned(), args }
}

/// Interprets the outcome of the provisioning invocation. On success
/// the engine prints the new instance's id on standard output; the id
/// is that output trimmed.
pub fn provision_result(outcome: &ToolOutcome) -> (r: Result<String, UcodeError>)
    ensures
        (outcome@ matches OutcomeModel::NotLaunched(e) ==> r matches Err(err) && err@
            == ErrorModel::Engine("Failed to start container: "@ + e)),
        (outcome@ matches OutcomeModel::Exited { success, stdout, stderr } ==> {
            &&& (success ==> (r matches Ok(id) && id@ == trim_spec(stdout)))
            &&& (!success ==> (r matches Err(err) && err@ == ErrorModel::Engine(
                "Container start failed: "@ + stderr,
            )))
        }),
{
    match outcome {
        ToolOutcome::NotLaunched(e) => Err(UcodeError::Engine(
            str_concat("Failed to start container: ", e.as_str()),
        )),
        ToolOutcome::Exited { success, stdout, stderr } => {
            if *success {
                Ok(crate::text::trim(stdout.as_str()))
            } else {
                Err(UcodeError::Engine(str_concat("Container start failed: ", stderr.as_str())))
            }
        },
    }
}

/// Plans the engine invocation that stops an instance by id.
pub fn stop_invocation(container_id: &str) -> (r: ToolInvocation)
    ensures
        r@.program == "docker"@,
        r@.args =~= seq!["stop"@, container_id@],
{
    let mut args: Vec<String> = Vec::new();
    push_string(&mut args, "stop");
    push_string(&mut args, container_id);
    ToolInvocation { program: "docker".to_owned(), args }
}

/// Interprets the outcome of the stop invocation.
pub fn stop_result(outcome: &ToolOutcome) -> (r: Result<(), UcodeError>)
    ensures
        (outcome@ matches OutcomeModel::NotLaunched(e) ==> r matches Err(err) && err@
            == ErrorModel::Engine("Failed to stop container: "@ + e)),
        (outcome@ matches OutcomeModel::Exited { success, stdout, stderr } ==> {
            &&& (success ==> r is Ok)
            &&& (!success ==> (r matches Err(err) && err@ == ErrorModel::Engine(
                "Container stop failed: "@ + stderr,
            )))
        }),
{
    match outcome {
        ToolOutcome::NotLaunched(e) => Err(UcodeError::Engine(
            str_concat("Failed to stop container: ", e.as_str()),
        )),
        ToolOutcome::Exited { success, stdout: _, stderr } => {
            if *success {
                Ok(())
            } else {
                Err(UcodeError::Engine(str_concat("Container stop failed: ", stderr.as_str())))
            }
        },
    }
}

/// Plans the engine invocation that inspects the live state of an
/// instance by id.
pub fn inspect_invocation(container_id: &str) -> (r: ToolInvocation)
    ensures
        r@.program == "docker"@,
        r@.args =~= seq!["inspect"@, container_id@, "--format"@, "{{.State.Status}}"@],
{
    let mut args: Vec<String> = Vec::new();
    push_string(&mut args, "inspect");
    push_string(&mut args, container_id);
    push_string(&mut args, "--format");
    push_string(&mut args, "{{.State.Status}}");
    ToolInvocation { program: "docker".to_owned(), args }
}

/// Interprets the outcome of the inspect invocation: the engine's raw
/// answer on success, a typed engine error carrying the tool's
/// diagnostic on a launch failure or a non-success exit.
pub fn inspect_result(outcome: &ToolOutcome) -> (r: Result<String, UcodeError>)
    ensures
        (outcome@ matches OutcomeModel::NotLaunched(e) ==> (r matches Err(err) && err@
            == ErrorModel::Engine("Failed to get container status: "@ + e))),
        (outcome@ matches OutcomeModel::Exited { success, stdout, stderr } ==> {
            &&& (success ==> (r matches Ok(answer) && answer@ == stdout))
            &&& (!success ==> (r matches Err(err) && err@ == ErrorModel::Engine(
                "Container status failed: "@ + stderr,
            )))
        }),
{
    match outcome {
        ToolOutcome::NotLaunched(e) => Err(UcodeError::Engine(
            str_concat("Failed to get container status: ", e.as_str()),
        )),
        ToolOutcome::Exited { success, stdout, stderr } => {
            if *success {
                Ok(stdout.clone())
            } else {
                Err(UcodeError::Engine(str_concat("Container status failed: ", stderr.as_str())))
            }
        },
    }
}

/// A freshly constructed status record for a live-state query: the
/// engine's trimmed answer, the fixed display name and ports, and a
/// creation timestamp taken at the time of the call.
pub fn status_snapshot(container_id: String, inspect_output: &str) -> (r: ContainerStatus)
    ensures
        r@.id == container_id@,
        r@.name == "udesk-container"@,
        r@.status == trim_spec(inspect_output@),
        r@.ports =~= seq!["2222:22"@, "8080:8080"@],
        r@.created.len() > 0,
{
    let mut ports: Vec<String> = Vec::new();
    push_string(&mut ports, "2222:22");
    push_string(&mut ports, "8080:8080");
    proof {
        assert(ports.deep_view() =~= seq!["2222:22"@, "8080:8080"@]);
    }
    ContainerStatus {
        id: container_id,
        name: "udesk-container".to_owned(),
        status: crate::text::trim(inspect_output),
        created: now_rfc3339(),
        ports,
    }
}

/// Plans the engine invocation that lists running instances under the
/// `udesk` name prefix convention.
pub fn list_running_invocation() -> (r: ToolInvocation)
    ensures
        r@.program == "docker"@,
        r@.args =~= seq!["ps"@, "--filter"@, "name=udesk"@, "--format"@, "{{.Names}}"@],
{
    let mut args: Vec<String> = Vec::new();
    push_string(&mut args, "ps");
    push_string(&mut args, "--filter");
    push_string(&mut args, "name=udesk");
    push_string(&mut args, "--format");
    push_string(&mut args, "{{.Names}}");
    ToolInvocation { program: "docker".to_owned(), args }
}

/// Interprets the listing outcome: whether any matching instance is
/// running. A listing that could not be started is a typed error; a
/// failed listing means no instance.
pub fn container_running(outcome: &ToolOutcome) -> (r: Result<bool, UcodeError>)
    ensures
        (outcome@ matches OutcomeModel::NotLaunched(e) ==> r matches Err(err) && err@
            == ErrorModel::Engine("Failed to execute docker command: "@ + e)),
        (outcome@ matches OutcomeModel::Exited { success, stdout, stderr } ==> {
            &&& (success ==> (r matches Ok(b) && b == (trim_spec(stdout).len() > 0)))
            &&& (!success ==> (r matches Ok(b) && b == false))
        }),
{
    match outcome {
        ToolOutcome::NotLaunched(e) => Err(UcodeError::Engine(
            str_concat("Failed to execute docker command: ", e.as_str()),
        )),
        ToolOutcome::Exited { success, stdout, stderr: _ } => {
            if *success {
                let t = crate::text::trim(stdout.as_str());
                Ok(t.as_str().unicode_len() != 0)
            } else {
                Ok(false)
            }
        },
    }
}

/// Interprets the outcome of the workspace directory listing: the
/// listing tool's output lines on success.
pub fn workspace_files_response(outcome: &ToolOutcome) -> (r: Result<Vec<String>, UcodeError>)
    ensures
        (outcome@ matches OutcomeModel::NotLaunched(e) ==> (r matches Err(err) && err@
            == ErrorModel::Engine("Failed to list files: "@ + e))),
        (outcome@ matches OutcomeModel::Exited { success, stdout, stderr } ==> {
            &&& (success ==> (r matches Ok(files) && files.deep_view()
                == crate::text::lines_spec(stdout)))
            &&& (!success ==> (r matches Err(err) && err@ == ErrorModel::Engine(
                "Failed to list workspace files"@,
            )))
        }),
{
    match outcome {
        ToolOutcome::NotLaunched(e) => Err(UcodeError::Engine(
            str_concat("Failed to list files: ", e.as_str()),
        )),
        ToolOutcome::Exited { success, stdout, stderr: _ } => {
            if *success {
                Ok(crate::text::split_lines(stdout.as_str()))
            } else {
                Err(UcodeError::Engine("Failed to list workspace files".to_owned()))
            }
        },
    }
}

/// Plans the workspace directory listing.
pub fn list_files_invocation(full_path: &str) -> (r: ToolInvocation)
    ensures
        r@.program == "ls"@,
        r@.args =~= seq!["-la"@, full_path@],
{
    let mut args: Vec<String> = Vec::new();
    push_string(&mut args, "-la");
    push_string(&mut args, full_path);
    ToolInvocation { program: "ls".to_owned(), args }
}

/// Plans the probe that checks whether the engine itself is available.
pub fn engine_probe_invocation() -> (r: ToolInvocation)
    ensures
        r@.program == "docker"@,
        r@.args =~= seq!["version"@, "--format"@, "json"@],
{
    let mut args: Vec<String> = Vec::new();
    push_string(&mut args, "version");
    push_string(&mut args, "--format");
    push_string(&mut args, "json");
    ToolInvocation { program: "docker".to_owned(), args }
}

/// Whether a probe outcome shows the engine as available: it ran and
/// exited successfully.
pub fn engine_available(outcome: &ToolOutcome) -> (r: bool)
    ensures
        r == (outcome@ matches OutcomeModel::Exited { success: true, .. }),
{
    match outcome {
        ToolOutcome::NotLaunched(_) => false,
        ToolOutcome::Exited { success, stdout: _, stderr: _ } => *success,
    }
}

} // verus!
