use udesk_core::engine::ToolOutcome;
use udesk_core::simple::default_simple_config;
use udesk_core::simple::parse_process_list;
use udesk_core::simple::process_list_invocation;
use udesk_core::simple::process_list_text;
use udesk_core::simple::simple_backup_response;
use udesk_core::simple::simple_help_commands_text;
use udesk_core::simple::simple_help_default_text;
use udesk_core::simple::simple_info_default_text;
use udesk_core::simple::simple_info_processes_text;
use udesk_core::simple::simple_info_system_text;
use udesk_core::simple::simple_restore_response;
use udesk_core::simple::simple_route;
use udesk_core::simple::simple_status_text;
use udesk_core::simple::udos_probe_invocation;
use udesk_core::simple::udos_running;
use udesk_core::simple::udos_start_invocation;
use udesk_core::simple::udos_start_response;
use udesk_core::simple::udos_stop_invocation;
use udesk_core::simple::udos_stop_response;
use udesk_core::simple::SimpleAction;
use udesk_core::simple::SimpleTinyCoreManager;

fn ran(success: bool, stdout: &str, stderr: &str) -> ToolOutcome {
    ToolOutcome::Exited {
        success,
        stdout: stdout.to_string(),
        stderr: stderr.to_string(),
    }
}

#[test]
fn manager_constructs() {
    let _m = SimpleTinyCoreManager::new();
}

#[test]
fn reduced_routing_recognizes_its_commands() {
    assert_eq!(simple_route("[INFO|SYSTEM]").unwrap(), SimpleAction::InfoSystem);
    assert_eq!(simple_route("[INFO|PROCESSES]").unwrap(), SimpleAction::InfoProcesses);
    assert_eq!(simple_route("[INFO]").unwrap(), SimpleAction::InfoDefault);
    assert_eq!(simple_route("[INFO|OTHER]").unwrap(), SimpleAction::InfoDefault);
    assert_eq!(simple_route("[STATUS]").unwrap(), SimpleAction::Status);
    assert_eq!(simple_route("[BACKUP]").unwrap(), SimpleAction::Backup);
    assert_eq!(simple_route("[RESTORE]").unwrap(), SimpleAction::Restore);
    assert_eq!(simple_route("[HELP|COMMANDS]").unwrap(), SimpleAction::HelpCommands);
    assert_eq!(simple_route("[HELP]").unwrap(), SimpleAction::HelpDefault);
    assert_eq!(simple_route("[PROCESS|START]").unwrap(), SimpleAction::ProcessStart);
    assert_eq!(simple_route("[PROCESS|STOP]").unwrap(), SimpleAction::ProcessStop);
    assert_eq!(simple_route("[PROCESS|LIST]").unwrap(), SimpleAction::ProcessList);
}

#[test]
fn reduced_routing_separates_option_and_parameter() {
    // The parameter travels as its own field and the handlers ignore it,
    // so the option still matches.
    assert_eq!(simple_route("[INFO|SYSTEM*x]").unwrap(), SimpleAction::InfoSystem);
    assert_eq!(simple_route("[PROCESS|LIST*all]").unwrap(), SimpleAction::ProcessList);
}

#[test]
fn reduced_routing_trims_and_rejects() {
    assert_eq!(simple_route("  [STATUS]  ").unwrap(), SimpleAction::Status);
    assert_eq!(
        simple_route("STATUS").unwrap_err(),
        "Invalid uCODE format. Use [COMMAND|OPTION*PARAMETER]"
    );
    assert_eq!(
        simple_route("[STATUS").unwrap_err(),
        "Invalid uCODE format. Use [COMMAND|OPTION*PARAMETER]"
    );
    // A lowercase verb is a grammar failure, not an unknown command.
    assert_eq!(
        simple_route("[info]").unwrap_err(),
        "Invalid uCODE format. Use [COMMAND|OPTION*PARAMETER]"
    );
    assert_eq!(
        simple_route("[]").unwrap_err(),
        "Invalid uCODE format. Use [COMMAND|OPTION*PARAMETER]"
    );
    assert_eq!(simple_route("[THEME|SET*C64]").unwrap_err(), "Unknown command: THEME");
    assert_eq!(
        simple_route("[PROCESS]").unwrap_err(),
        "Process command requires option: START, STOP, or LIST"
    );
    assert_eq!(
        simple_route("[PROCESS|FOO]").unwrap_err(),
        "Process command requires option: START, STOP, or LIST"
    );
}

#[test]
fn default_process_config_is_fixed() {
    let c = default_simple_config();
    assert_eq!(c.name, "udesk-simple");
    assert_eq!(c.workspace_path, "/tmp/workspace");
    assert_eq!(c.theme, "default");
    assert_eq!(c.role, "user");
}

#[test]
fn process_start_invocation_is_exact() {
    let inv = udos_start_invocation(&default_simple_config());
    assert_eq!(inv.program, "/usr/local/bin/udos");
    assert_eq!(
        inv.args,
        vec![
            "--background".to_string(),
            "--workspace".to_string(),
            "/tmp/workspace".to_string(),
            "--theme".to_string(),
            "default".to_string(),
            "--role".to_string(),
            "user".to_string()
        ]
    );
}

#[test]
fn process_lifecycle_responses_are_exact() {
    assert_eq!(
        udos_start_response(&ran(true, " pid 42 \n", "")).unwrap(),
        "uDOS started successfully: pid 42"
    );
    assert_eq!(
        udos_start_response(&ran(false, "", "bad workspace")).unwrap_err(),
        "Failed to start uDOS: bad workspace"
    );
    assert_eq!(udos_stop_response(&ran(true, "", "")).unwrap(), "uDOS stopped successfully");
    assert_eq!(udos_stop_response(&ran(false, "", "")).unwrap_err(), "Failed to stop uDOS");
    assert_eq!(
        udos_stop_response(&ToolOutcome::NotLaunched("no pkill".to_string())).unwrap_err(),
        "Failed to stop process: no pkill"
    );
}

#[test]
fn probe_invocations_are_exact() {
    assert_eq!(udos_probe_invocation().program, "pgrep");
    assert_eq!(udos_probe_invocation().args, vec!["udos".to_string()]);
    assert_eq!(udos_stop_invocation().program, "pkill");
    assert_eq!(process_list_invocation().program, "ps");
    assert_eq!(process_list_invocation().args, vec!["aux".to_string()]);
}

#[test]
fn probe_outcome_requires_output() {
    assert_eq!(udos_running(&ran(true, "1234\n", "")).unwrap(), true);
    assert_eq!(udos_running(&ran(true, "", "")).unwrap(), false);
    assert_eq!(udos_running(&ran(false, "1234\n", "")).unwrap(), false);
    assert_eq!(
        udos_running(&ToolOutcome::NotLaunched("no pgrep".to_string())).unwrap_err(),
        "Failed to check process: no pgrep"
    );
}

#[test]
fn process_listing_keeps_matching_lines() {
    let output = "\
USER PID %CPU %MEM VSZ RSS TTY STAT START TIME COMMAND\n\
root 1 0.0 0.1 1000 200 ? Ss 10:00 0:01 /sbin/init\n\
tc 42 0.5 1.0 2000 400 ? S 10:01 0:02 /usr/local/bin/udos --background extra\n\
tc 77 0.1 0.2 1500 300 ? S 10:02 0:00 ucode-engine\n\
tc bad 0.1 0.2 1500 300 ? S 10:02 0:00 udos-helper\n";
    let list = parse_process_list(output);
    assert_eq!(list.len(), 3);
    assert_eq!(list[0].pid, 42);
    assert_eq!(list[0].name, "/usr/local/bin/udos");
    assert_eq!(list[0].status, "running");
    assert_eq!(list[0].command, "/usr/local/bin/udos --background extra");
    assert_eq!(list[1].pid, 77);
    assert_eq!(list[1].name, "ucode-engine");
    assert_eq!(list[1].command, "ucode-engine");
    // A process id that is not a number is reported as zero.
    assert_eq!(list[2].pid, 0);
    assert_eq!(list[2].name, "udos-helper");
}

#[test]
fn process_listing_skips_the_header_and_short_lines() {
    let header_mentions_udos = "COMMAND udos\nshort udos line\n";
    assert!(parse_process_list(header_mentions_udos).is_empty());
    assert!(parse_process_list("").is_empty());
}

#[test]
fn reduced_texts_are_exact() {
    assert_eq!(
        simple_info_system_text(),
        "uDESK v1.0.7 - TinyCore Linux\nSimple Process Management\nNo Container Overhead"
    );
    assert_eq!(simple_info_processes_text(2), "Running processes: 2");
    assert_eq!(simple_info_default_text(), "uDESK v1.0.7 Information System");
    assert_eq!(
        simple_status_text(true, 2),
        "uDOS Status: Running\nProcesses: 2 running"
    );
    assert_eq!(
        simple_status_text(false, 0),
        "uDOS Status: Stopped\nProcesses: 0 running"
    );
    assert_eq!(
        simple_help_commands_text(),
        "Available commands:\n[INFO|SYSTEM] - System info\n[STATUS] - Process status\n[BACKUP] - System backup\n[RESTORE] - System restore"
    );
    assert_eq!(
        simple_help_default_text(),
        "uCODE Help System\nUse [HELP|COMMANDS] for command list"
    );
}

#[test]
fn reduced_maintenance_responses_are_exact() {
    assert_eq!(
        simple_backup_response(&ran(true, "", "")).unwrap(),
        "System backup completed using filetool.sh"
    );
    assert_eq!(simple_backup_response(&ran(false, "", "x")).unwrap_err(), "Backup failed");
    assert_eq!(
        simple_backup_response(&ToolOutcome::NotLaunched("gone".to_string())).unwrap_err(),
        "Backup failed: gone"
    );
    assert_eq!(
        simple_restore_response(&ran(true, "", "")).unwrap(),
        "System restore completed using filetool.sh"
    );
    assert_eq!(simple_restore_response(&ran(false, "", "x")).unwrap_err(), "Restore failed");
}

#[test]
fn process_list_rendering_names_every_field() {
    let list = parse_process_list(
        "HEADER\ntc 42 0 0 0 0 ? S 0:00 0:00 udos --fast\n",
    );
    let text = process_list_text(&list);
    assert_eq!(text, "Running processes:\n42 udos running udos --fast");
}
