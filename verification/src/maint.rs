//! System maintenance operations: the fixed external tool invocations
//! behind backup, restore, destroy, reboot, repair, undo and redo, and
//! the verified interpretation of their outcomes. Repair runs a fixed
//! ordered sequence of steps and reports per-step pass/fail without
//! aborting early; undo and redo operate on a single sentinel snapshot
//! path each.

use vstd::prelude::*;
use crate::text::str_concat;
use crate::text::join_seqs;
use crate::engine::ToolInvocation;
use crate::engine::InvocationModel;
use crate::engine::ToolOutcome;
use crate::engine::OutcomeModel;
use crate::engine::invocation_models;
use crate::text::push_string;
use crate::route::UcodeError;
use crate::route::ErrorModel;

verus! {

/// Interprets a tool outcome for a maintenance command: a launch
/// failure is reported under the launch prefix, a non-success exit
/// under the failure prefix with the tool's diagnostic, and a success
/// as the fixed message.
fn tool_response(outcome: &ToolOutcome, launch_prefix: &str, ok_message: &str, fail_prefix: &str)
    -> (r: Result<String, UcodeError>)
    ensures
        (outcome@ matches OutcomeModel::NotLaunched(e) ==> (r matches Err(err) && err@
            == ErrorModel::Engine(launch_prefix@ + e))),
        (outcome@ matches OutcomeModel::Exited { success, stdout, stderr } ==> {
            &&& (success ==> (r matches Ok(m) && m@ == ok_message@))
            &&& (!success ==> (r matches Err(err) && err@ == ErrorModel::Engine(
                fail_prefix@ + stderr,
            )))
        }),
{
    match outcome {
        ToolOutcome::NotLaunched(e) => Err(UcodeError::Engine(
            str_concat(launch_prefix, e.as_str()),
        )),
        ToolOutcome::Exited { success, stdout: _, stderr } => {
            if *success {
                Ok(ok_message.to_owned())
            } else {
                Err(UcodeError::Engine(str_concat(fail_prefix, stderr.as_str())))
            }
        },
    }
}

/// Plans the backup invocation: the platform file tool with its backup
/// flag.
pub fn backup_invocation() -> (r: ToolInvocation)
    ensures
        r@.program == "filetool.sh"@,
        r@.args =~= seq!["-b"@],
{
    let mut args: Vec<String> = Vec::new();
    push_string(&mut args, "-b");
    ToolInvocation { program: "filetool.sh".to_owned(), args }
}

/// Interprets the backup outcome.
pub fn backup_response(outcome: &ToolOutcome) -> (r: Result<String, UcodeError>)
    ensures
        (outcome@ matches OutcomeModel::NotLaunched(e) ==> (r matches Err(err) && err@
            == ErrorModel::Engine("Failed to execute backup: "@ + e))),
        (outcome@ matches OutcomeModel::Exited { success, stdout, stderr } ==> {
            &&& (success ==> (r matches Ok(m) && m@
                == "System backup completed successfully"@))
            &&& (!success ==> (r matches Err(err) && err@ == ErrorModel::Engine(
                "Backup failed: "@ + stderr,
            )))
        }),
{
    tool_response(
        outcome,
        "Failed to execute backup: ",
        "System backup completed successfully",
        "Backup failed: ",
    )
}

/// Plans the restore invocation: the platform file tool with its
/// restore flag.
pub fn restore_invocation() -> (r: ToolInvocation)
    ensures
        r@.program == "filetool.sh"@,
        r@.args =~= seq!["-r"@],
{
    let mut args: Vec<String> = Vec::new();
    push_string(&mut args, "-r");
    ToolInvocation { program: "filetool.sh".to_owned(), args }
}

/// Interprets the restore outcome.
pub fn restore_response(outcome: &ToolOutcome) -> (r: Result<String, UcodeError>)
    ensures
        (outcome@ matches OutcomeModel::NotLaunched(e) ==> (r matches Err(err) && err@
            == ErrorModel::Engine("Failed to execute restore: "@ + e))),
        (outcome@ matches OutcomeModel::Exited { success, stdout, stderr } ==> {
            &&& (success ==> (r matches Ok(m) && m@
                == "System restore completed successfully"@))
            &&& (!success ==> (r matches Err(err) && err@ == ErrorModel::Engine(
                "Restore failed: "@ + stderr,
            )))
        }),
{
    tool_response(
        outcome,
        "Failed to execute restore: ",
        "System restore completed successfully",
        "Restore failed: ",
    )
}

/// Plans the reboot invocation: a privileged reboot.
pub fn reboot_invocation() -> (r: ToolInvocation)
    ensures
        r@.program == "sudo"@,
        r@.args =~= seq!["reboot"@],
{
    let mut args: Vec<String> = Vec::new();
    push_string(&mut args, "reboot");
    ToolInvocation { program: "sudo".to_owned(), args }
}

/// Interprets the reboot outcome.
pub fn reboot_response(outcome: &ToolOutcome) -> (r: Result<String, UcodeError>)
    ensures
        (outcome@ matches OutcomeModel::NotLaunched(e) ==> (r matches Err(err) && err@
            == ErrorModel::Engine("Failed to execute reboot: "@ + e))),
        (outcome@ matches OutcomeModel::Exited { success, stdout, stderr } ==> {
            &&& (success ==> (r matches Ok(m) && m@ == "System reboot initiated"@))
            &&& (!success ==> (r matches Err(err) && err@ == ErrorModel::Engine(
                "Reboot failed: "@ + stderr,
            )))
        }),
{
    tool_response(
        outcome,
        "Failed to execute reboot: ",
        "System reboot initiated",
        "Reboot failed: ",
    )
}

/// A step run through the shell.
pub open spec fn shell_step(command: Seq<char>) -> InvocationModel {
    InvocationModel { program: "sh"@, args: seq!["-c"@, command] }
}

/// A step run through the shell with privileges.
pub open spec fn sudo_shell_step(command: Seq<char>) -> InvocationModel {
    InvocationModel { program: "sudo"@, args: seq!["sh"@, "-c"@, command] }
}

/// Builds a plain shell step.
fn shell_invocation(command: &str) -> (r: ToolInvocation)
    ensures
        r@ == shell_step(command@),
{
    let mut args: Vec<String> = Vec::new();
    push_string(&mut args, "-c");
    push_string(&mut args, command);
    let r = ToolInvocation { program: "sh".to_owned(), args };
    proof {
        assert(r@ =~= shell_step(command@));
    }
    r
}

/// Builds a privileged shell step.
fn sudo_shell_invocation(command: &str) -> (r: ToolInvocation)
    ensures
        r@ == sudo_shell_step(command@),
{
    let mut args: Vec<String> = Vec::new();
    push_string(&mut args, "sh");
    push_string(&mut args, "-c");
    push_string(&mut args, command);
    let r = ToolInvocation { program: "sudo".to_owned(), args };
    proof {
        assert(r@ =~= sudo_shell_step(command@));
    }
    r
}

/// The destroy sequence: remove user data and reset to a clean state,
/// step by step, stopping at the first failing step.
pub fn destroy_steps() -> (r: Vec<ToolInvocation>)
    ensures
        invocation_models(r@) =~= seq![
            shell_step("rm -rf /home/tc/.local"@),
            shell_step("rm -rf /tmp/tce"@),
            shell_step("rm -f /opt/.filetool.lst"@),
            shell_step("rm -f /opt/.xfiletool.lst"@),
        ],
{
    let mut steps: Vec<ToolInvocation> = Vec::new();
    steps.push(shell_invocation("rm -rf /home/tc/.local"));
    steps.push(shell_invocation("rm -rf /tmp/tce"));
    steps.push(shell_invocation("rm -f /opt/.filetool.lst"));
    steps.push(shell_invocation("rm -f /opt/.xfiletool.lst"));
    steps
}

/// Verdict on one destroy step: success lets the sequence continue;
/// any failure stops it with the failing step named.
pub fn destroy_step_verdict(command: &str, outcome: &ToolOutcome) -> (r: Result<(), UcodeError>)
    ensures
        (outcome@ matches OutcomeModel::NotLaunched(e) ==> (r matches Err(err) && err@
            == ErrorModel::Engine("Failed to execute destroy command: "@ + e))),
        (outcome@ matches OutcomeModel::Exited { success, stdout, stderr } ==> {
            &&& (success ==> r is Ok)
            &&& (!success ==> (r matches Err(err) && err@ == ErrorModel::Engine(
                "Destroy failed at step '"@ + command@ + "': "@ + stderr,
            )))
        }),
{
    match outcome {
        ToolOutcome::NotLaunched(e) => Err(UcodeError::Engine(
            str_concat("Failed to execute destroy command: ", e.as_str()),
        )),
        ToolOutcome::Exited { success, stdout: _, stderr } => {
            if *success {
                Ok(())
            } else {
                let mut msg = str_concat("Destroy failed at step '", command);
                msg.append("': ");
                msg.append(stderr.as_str());
                Err(UcodeError::Engine(msg))
            }
        },
    }
}

/// The message reported when every destroy step succeeded.
pub fn destroy_success_message() -> (r: String)
    ensures
        r@ == "System destroyed and reset to clean state"@,
{
    "System destroyed and reset to clean state".to_owned()
}

/// The repair sequence: check the filesystem and rebuild extensions,
/// modules and the library cache. Every step runs regardless of
/// earlier failures.
pub fn repair_steps() -> (r: Vec<ToolInvocation>)
    ensures
        invocation_models(r@) =~= seq![
            sudo_shell_step("fsck -y /dev/sda1"@),
            sudo_shell_step("tce-load -i base"@),
            sudo_shell_step("depmod -a"@),
            sudo_shell_step("ldconfig"@),
        ],
{
    let mut steps: Vec<ToolInvocation> = Vec::new();
    steps.push(sudo_shell_invocation("fsck -y /dev/sda1"));
    steps.push(sudo_shell_invocation("tce-load -i base"));
    steps.push(sudo_shell_invocation("depmod -a"));
    steps.push(sudo_shell_invocation("ldconfig"));
    steps
}

/// The report line for one repair step: the step's command and whether
/// it passed. A step whose tool could not be started at all aborts the
/// report with a typed error.
pub fn repair_step_line(command: &str, outcome: &ToolOutcome) -> (r: Result<String, UcodeError>)
    ensures
        (outcome@ matches OutcomeModel::NotLaunched(e) ==> (r matches Err(err) && err@
            == ErrorModel::Engine("Failed to execute repair command: "@ + e))),
        (outcome@ matches OutcomeModel::Exited { success, stdout, stderr } ==> (r matches Ok(line)
            && line@ == command@ + ": "@ + (if success {
            "OK"@
        } else {
            "FAIL"@
        }))),
{
    match outcome {
        ToolOutcome::NotLaunched(e) => Err(UcodeError::Engine(
            str_concat("Failed to execute repair command: ", e.as_str()),
        )),
        ToolOutcome::Exited { success, stdout: _, stderr: _ } => {
            let mut line = str_concat(command, ": ");
            if *success {
                line.append("OK");
            } else {
                line.append("FAIL");
            }
            Ok(line)
        },
    }
}

/// The aggregated repair report over the per-step lines.
pub fn repair_report(lines: &Vec<String>) -> (r: String)
    ensures
        r@ == "Repair sequence completed:\n"@ + join_seqs(lines.deep_view(), "\n"@),
{
    let body = crate::text::join_strings(lines, "\n");
    str_concat("Repair sequence completed:\n", body.as_str())
}

/// The single sentinel path that holds the last snapshot for undo.
pub fn undo_snapshot_path() -> (r: &'static str)
    ensures
        r@ == "/tmp/.last_backup"@,
{
    "/tmp/.last_backup"
}

/// Plans the undo of the last operation from the probed presence of
/// the sentinel snapshot: when it is present, copy it back over the
/// root filesystem; when it is absent, there is nothing to undo.
pub fn undo_plan(snapshot_present: bool) -> (r: Option<ToolInvocation>)
    ensures
        r is Some <==> snapshot_present,
        (r matches Some(inv) ==> inv@.program == "cp"@ && inv@.args =~= seq![
            "-r"@,
            "/tmp/.last_backup"@,
            "/"@,
        ]),
{
    if snapshot_present {
        let mut args: Vec<String> = Vec::new();
        push_string(&mut args, "-r");
        push_string(&mut args, "/tmp/.last_backup");
        push_string(&mut args, "/");
        Some(ToolInvocation { program: "cp".to_owned(), args })
    } else {
        None
    }
}

/// The error reported when there is no snapshot to undo.
pub fn undo_unavailable() -> (r: UcodeError)
    ensures
        r@ == ErrorModel::State("No backup available for undo operation"@),
{
    UcodeError::State("No backup available for undo operation".to_owned())
}

/// Interprets the undo outcome.
pub fn undo_response(outcome: &ToolOutcome) -> (r: Result<String, UcodeError>)
    ensures
        (outcome@ matches OutcomeModel::NotLaunched(e) ==> (r matches Err(err) && err@
            == ErrorModel::Engine("Failed to execute undo: "@ + e))),
        (outcome@ matches OutcomeModel::Exited { success, stdout, stderr } ==> {
            &&& (success ==> (r matches Ok(m) && m@ == "Last operation undone successfully"@))
            &&& (!success ==> (r matches Err(err) && err@ == ErrorModel::Engine(
                "Undo failed: "@ + stderr,
            )))
        }),
{
    tool_response(
        outcome,
        "Failed to execute undo: ",
        "Last operation undone successfully",
        "Undo failed: ",
    )
}

/// The single sentinel path that holds the last undone snapshot for
/// redo.
pub fn redo_snapshot_path() -> (r: &'static str)
    ensures
        r@ == "/tmp/.last_redo"@,
{
    "/tmp/.last_redo"
}

/// Plans the redo of the last undone operation from the probed
/// presence of its own sentinel snapshot.
pub fn redo_plan(snapshot_present: bool) -> (r: Option<ToolInvocation>)
    ensures
        r is Some <==> snapshot_present,
        (r matches Some(inv) ==> inv@.program == "cp"@ && inv@.args =~= seq![
            "-r"@,
            "/tmp/.last_redo"@,
            "/"@,
        ]),
{
    if snapshot_present {
        let mut args: Vec<String> = Vec::new();
        push_string(&mut args, "-r");
        push_string(&mut args, "/tmp/.last_redo");
        push_string(&mut args, "/");
        Some(ToolInvocation { program: "cp".to_owned(), args })
    } else {
        None
    }
}

/// The error reported when there is no undone operation to redo.
pub fn redo_unavailable() -> (r: UcodeError)
    ensures
        r@ == ErrorModel::State("No operation available for redo"@),
{
    UcodeError::State("No operation available for redo".to_owned())
}

/// Interprets the redo outcome.
pub fn redo_response(outcome: &ToolOutcome) -> (r: Result<String, UcodeError>)
    ensures
        (outcome@ matches OutcomeModel::NotLaunched(e) ==> (r matches Err(err) && err@
            == ErrorModel::Engine("Failed to execute redo: "@ + e))),
        (outcome@ matches OutcomeModel::Exited { success, stdout, stderr } ==> {
            &&& (success ==> (r matches Ok(m) && m@
                == "Last undone operation redone successfully"@))
            &&& (!success ==> (r matches Err(err) && err@ == ErrorModel::Engine(
                "Redo failed: "@ + stderr,
            )))
        }),
{
    tool_response(
        outcome,
        "Failed to execute redo: ",
        "Last undone operation redone successfully",
        "Redo failed: ",
    )
}

} // verus!
