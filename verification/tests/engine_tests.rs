use udesk_core::engine::ToolOutcome;
use udesk_core::engine::container_running;
use udesk_core::engine::engine_available;
use udesk_core::engine::engine_probe_invocation;
use udesk_core::engine::inspect_invocation;
use udesk_core::engine::inspect_result;
use udesk_core::engine::list_files_invocation;
use udesk_core::engine::list_running_invocation;
use udesk_core::engine::provision_invocation;
use udesk_core::engine::provision_result;
use udesk_core::engine::status_snapshot;
use udesk_core::engine::stop_invocation;
use udesk_core::engine::stop_result;
use udesk_core::engine::workspace_files_response;
use udesk_core::registry::ContainerConfig;
use udesk_core::route::UcodeError;

fn ran(success: bool, stdout: &str, stderr: &str) -> ToolOutcome {
    ToolOutcome::Exited {
        success,
        stdout: stdout.to_string(),
        stderr: stderr.to_string(),
    }
}

#[test]
fn provisioning_arguments_are_exact() {
    let config = ContainerConfig {
        name: "dev".to_string(),
        image: "udesk/udos:latest".to_string(),
        workspace_path: "/home/me/work".to_string(),
        extensions: vec!["udesk-base".to_string(), "udos-shell".to_string()],
        theme: "C64".to_string(),
        role: "USER".to_string(),
    };
    let inv = provision_invocation(&config, "udesk-12345678");
    assert_eq!(inv.program, "docker");
    let expected: Vec<String> = [
        "run", "-d", "--name", "udesk-12345678",
        "-v", "/home/me/work:/workspace",
        "-v", "/tmp/.X11-unix:/tmp/.X11-unix",
        "-p", "2222:22", "-p", "8080:8080",
        "-e", "UDESK_THEME=C64", "-e", "UDESK_ROLE=USER", "-e", "DISPLAY=:0",
        "--workdir", "/workspace",
        "-v", "./extensions/udesk-base:/opt/udesk/extensions/udesk-base",
        "-v", "./extensions/udos-shell:/opt/udesk/extensions/udos-shell",
        "udesk/udos:latest", "/usr/local/bin/udos",
    ]
    .iter()
    .map(|s| s.to_string())
    .collect();
    assert_eq!(inv.args, expected);
}

#[test]
fn provision_result_trims_the_reported_id() {
    let id = provision_result(&ran(true, "  abc123\n", "")).unwrap();
    assert_eq!(id, "abc123");
}

#[test]
fn provision_result_surfaces_failures() {
    let e = provision_result(&ran(false, "", "boom")).unwrap_err();
    assert_eq!(e.message(), "Container start failed: boom");
    let e = provision_result(&ToolOutcome::NotLaunched("no docker".to_string())).unwrap_err();
    assert_eq!(e.message(), "Failed to start container: no docker");
}

#[test]
fn stop_invocation_and_result() {
    let inv = stop_invocation("abc");
    assert_eq!(inv.program, "docker");
    assert_eq!(inv.args, vec!["stop".to_string(), "abc".to_string()]);
    assert!(stop_result(&ran(true, "", "")).is_ok());
    let e = stop_result(&ran(false, "", "gone")).unwrap_err();
    assert_eq!(e.message(), "Container stop failed: gone");
}

#[test]
fn inspect_invocation_is_exact() {
    let inv = inspect_invocation("abc");
    assert_eq!(inv.program, "docker");
    assert_eq!(
        inv.args,
        vec![
            "inspect".to_string(),
            "abc".to_string(),
            "--format".to_string(),
            "{{.State.Status}}".to_string()
        ]
    );
}

#[test]
fn inspect_failures_surface_the_diagnostic() {
    assert_eq!(inspect_result(&ran(true, "running\n", "")).unwrap(), "running\n");
    let e = inspect_result(&ran(false, "", "no such container")).unwrap_err();
    assert_eq!(e.message(), "Container status failed: no such container");
    assert!(matches!(e, UcodeError::Engine(_)));
    let e = inspect_result(&ToolOutcome::NotLaunched("no docker".to_string())).unwrap_err();
    assert_eq!(e.message(), "Failed to get container status: no docker");
}

#[test]
fn status_snapshot_trims_the_engine_answer() {
    let s = status_snapshot("abc".to_string(), "running\n");
    assert_eq!(s.id, "abc");
    assert_eq!(s.name, "udesk-container");
    assert_eq!(s.status, "running");
    assert_eq!(s.ports, vec!["2222:22".to_string(), "8080:8080".to_string()]);
    assert!(!s.created.is_empty());
}

#[test]
fn listing_probes_are_exact() {
    let inv = list_running_invocation();
    assert_eq!(inv.program, "docker");
    assert_eq!(
        inv.args,
        vec![
            "ps".to_string(),
            "--filter".to_string(),
            "name=udesk".to_string(),
            "--format".to_string(),
            "{{.Names}}".to_string()
        ]
    );
    let probe = engine_probe_invocation();
    assert_eq!(probe.program, "docker");
    assert_eq!(
        probe.args,
        vec!["version".to_string(), "--format".to_string(), "json".to_string()]
    );
}

#[test]
fn container_running_reads_the_listing() {
    assert_eq!(container_running(&ran(true, "udesk-x\n", "")).unwrap(), true);
    assert_eq!(container_running(&ran(true, "  \n", "")).unwrap(), false);
    assert_eq!(container_running(&ran(false, "", "err")).unwrap(), false);
    let e = container_running(&ToolOutcome::NotLaunched("absent".to_string())).unwrap_err();
    assert_eq!(e.message(), "Failed to execute docker command: absent");
    assert!(matches!(e, UcodeError::Engine(_)));
}

#[test]
fn engine_availability_is_the_probe_exit() {
    assert!(engine_available(&ran(true, "", "")));
    assert!(!engine_available(&ran(false, "", "")));
    assert!(!engine_available(&ToolOutcome::NotLaunched("x".to_string())));
}

#[test]
fn workspace_listing_yields_the_output_lines() {
    let files = workspace_files_response(&ran(true, "total 0\nsrc\nCargo.toml\n", "")).unwrap();
    assert_eq!(
        files,
        vec!["total 0".to_string(), "src".to_string(), "Cargo.toml".to_string()]
    );
    let e = workspace_files_response(&ran(false, "", "no dir")).unwrap_err();
    assert_eq!(e.message(), "Failed to list workspace files");
    let inv = list_files_invocation("/w/sub");
    assert_eq!(inv.program, "ls");
    assert_eq!(inv.args, vec!["-la".to_string(), "/w/sub".to_string()]);
}
