use udesk_core::engine::ToolOutcome;
use udesk_core::maint::backup_invocation;
use udesk_core::maint::backup_response;
use udesk_core::maint::destroy_step_verdict;
use udesk_core::maint::destroy_steps;
use udesk_core::maint::destroy_success_message;
use udesk_core::maint::reboot_invocation;
use udesk_core::maint::reboot_response;
use udesk_core::maint::redo_plan;
use udesk_core::maint::redo_response;
use udesk_core::maint::redo_snapshot_path;
use udesk_core::maint::redo_unavailable;
use udesk_core::maint::repair_report;
use udesk_core::maint::repair_step_line;
use udesk_core::maint::repair_steps;
use udesk_core::maint::restore_invocation;
use udesk_core::maint::restore_response;
use udesk_core::maint::undo_plan;
use udesk_core::maint::undo_response;
use udesk_core::maint::undo_snapshot_path;
use udesk_core::maint::undo_unavailable;
use udesk_core::route::UcodeError;

fn ran(success: bool, stderr: &str) -> ToolOutcome {
    ToolOutcome::Exited {
        success,
        stdout: String::new(),
        stderr: stderr.to_string(),
    }
}

#[test]
fn backup_uses_the_file_tool() {
    let inv = backup_invocation();
    assert_eq!(inv.program, "filetool.sh");
    assert_eq!(inv.args, vec!["-b".to_string()]);
    assert_eq!(
        backup_response(&ran(true, "")).unwrap(),
        "System backup completed successfully"
    );
    let e = backup_response(&ran(false, "disk full")).unwrap_err();
    assert_eq!(e.message(), "Backup failed: disk full");
    assert!(matches!(e, UcodeError::Engine(_)));
    let e = backup_response(&ToolOutcome::NotLaunched("not found".to_string())).unwrap_err();
    assert_eq!(e.message(), "Failed to execute backup: not found");
}

#[test]
fn restore_uses_the_file_tool() {
    let inv = restore_invocation();
    assert_eq!(inv.program, "filetool.sh");
    assert_eq!(inv.args, vec!["-r".to_string()]);
    assert_eq!(
        restore_response(&ran(true, "")).unwrap(),
        "System restore completed successfully"
    );
    let e = restore_response(&ran(false, "missing archive")).unwrap_err();
    assert_eq!(e.message(), "Restore failed: missing archive");
}

#[test]
fn reboot_is_privileged() {
    let inv = reboot_invocation();
    assert_eq!(inv.program, "sudo");
    assert_eq!(inv.args, vec!["reboot".to_string()]);
    assert_eq!(reboot_response(&ran(true, "")).unwrap(), "System reboot initiated");
    let e = reboot_response(&ran(false, "denied")).unwrap_err();
    assert_eq!(e.message(), "Reboot failed: denied");
}

#[test]
fn destroy_runs_four_shell_steps_in_order() {
    let steps = destroy_steps();
    assert_eq!(steps.len(), 4);
    let expected = [
        "rm -rf /home/tc/.local",
        "rm -rf /tmp/tce",
        "rm -f /opt/.filetool.lst",
        "rm -f /opt/.xfiletool.lst",
    ];
    for (step, want) in steps.iter().zip(expected.iter()) {
        assert_eq!(step.program, "sh");
        assert_eq!(step.args, vec!["-c".to_string(), want.to_string()]);
    }
}

#[test]
fn destroy_stops_at_the_failing_step() {
    assert!(destroy_step_verdict("rm -rf /tmp/tce", &ran(true, "")).is_ok());
    let e = destroy_step_verdict("rm -rf /tmp/tce", &ran(false, "busy")).unwrap_err();
    assert_eq!(e.message(), "Destroy failed at step 'rm -rf /tmp/tce': busy");
    assert_eq!(destroy_success_message(), "System destroyed and reset to clean state");
}

#[test]
fn repair_reports_every_step() {
    let steps = repair_steps();
    assert_eq!(steps.len(), 4);
    assert_eq!(steps[0].program, "sudo");
    assert_eq!(
        steps[0].args,
        vec!["sh".to_string(), "-c".to_string(), "fsck -y /dev/sda1".to_string()]
    );
    let ok_line = repair_step_line("fsck -y /dev/sda1", &ran(true, "")).unwrap();
    assert_eq!(ok_line, "fsck -y /dev/sda1: OK");
    let fail_line = repair_step_line("depmod -a", &ran(false, "no modules")).unwrap();
    assert_eq!(fail_line, "depmod -a: FAIL");
    let report = repair_report(&vec![ok_line, fail_line]);
    assert_eq!(
        report,
        "Repair sequence completed:\nfsck -y /dev/sda1: OK\ndepmod -a: FAIL"
    );
    let e = repair_step_line("ldconfig", &ToolOutcome::NotLaunched("gone".to_string()))
        .unwrap_err();
    assert_eq!(e.message(), "Failed to execute repair command: gone");
}

#[test]
fn undo_and_redo_plan_only_when_the_snapshot_is_present() {
    let inv = undo_plan(true).unwrap();
    assert_eq!(inv.program, "cp");
    assert_eq!(
        inv.args,
        vec!["-r".to_string(), "/tmp/.last_backup".to_string(), "/".to_string()]
    );
    assert!(undo_plan(false).is_none());
    assert_eq!(undo_snapshot_path(), "/tmp/.last_backup");
    let inv = redo_plan(true).unwrap();
    assert_eq!(inv.program, "cp");
    assert_eq!(
        inv.args,
        vec!["-r".to_string(), "/tmp/.last_redo".to_string(), "/".to_string()]
    );
    assert!(redo_plan(false).is_none());
    assert_eq!(redo_snapshot_path(), "/tmp/.last_redo");
}

#[test]
fn undo_and_redo_use_single_snapshot_slots() {
    let e = undo_unavailable();
    assert!(matches!(e, UcodeError::State(_)));
    assert_eq!(e.message(), "No backup available for undo operation");
    let e = redo_unavailable();
    assert_eq!(e.message(), "No operation available for redo");
    assert_eq!(undo_response(&ran(true, "")).unwrap(), "Last operation undone successfully");
    assert_eq!(
        redo_response(&ran(true, "")).unwrap(),
        "Last undone operation redone successfully"
    );
    let e = undo_response(&ran(false, "cp: denied")).unwrap_err();
    assert_eq!(e.message(), "Undo failed: cp: denied");
    let e = redo_response(&ToolOutcome::NotLaunched("no cp".to_string())).unwrap_err();
    assert_eq!(e.message(), "Failed to execute redo: no cp");
}
