//! The lightweight process-based command surface: direct process
//! management without containers, its own reduced command routing, and
//! the verified parsing of the process listing.

use vstd::prelude::*;
use crate::text::str_concat;
use crate::text::str_eq;
use crate::text::trim;
use crate::text::trim_spec;
use crate::text::lines_spec;
use crate::text::split_ws_spec;
use crate::text::contains_seq;
use crate::text::parse_u32_spec;
use crate::text::join_seqs;
use crate::text::split_lines;
use crate::text::split_whitespace;
use crate::text::contains_sub;
use crate::text::parse_u32;
use crate::text::join_strings;
use crate::text::usize_to_string;
use crate::text::dec_str;
use crate::ucode::Command;
use crate::ucode::CommandModel;
use crate::ucode::wf_command;
use crate::ucode::render_model;
use crate::ucode::parse_ucode;
use crate::ucode::lemma_render_injective;
use crate::engine::ToolInvocation;
use crate::engine::ToolOutcome;
use crate::engine::OutcomeModel;
use crate::text::push_string;

verus! {

/// Configuration of a directly-started process environment.
#[derive(Debug, Clone)]
pub struct SimpleTinyCoreConfig {
    pub name: String,
    pub workspace_path: String,
    pub theme: String,
    pub role: String,
}

/// Mathematical model of a `SimpleTinyCoreConfig`.
#[verifier::ext_equal]
pub struct SimpleConfigModel {
    pub name: Seq<char>,
    pub workspace_path: Seq<char>,
    pub theme: Seq<char>,
    pub role: Seq<char>,
}

impl View for SimpleTinyCoreConfig {
    type V = SimpleConfigModel;

    open spec fn view(&self) -> SimpleConfigModel {
        SimpleConfigModel {
            name: self.name@,
            workspace_path: self.workspace_path@,
            theme: self.theme@,
            role: self.role@,
        }
    }
}

/// One matching process from the process listing.
#[derive(Debug, Clone)]
pub struct SimpleProcessStatus {
    pub pid: u32,
    pub name: String,
    pub status: String,
    pub command: String,
}

/// Mathematical model of a `SimpleProcessStatus`.
#[verifier::ext_equal]
pub struct ProcessModel {
    pub pid: u32,
    pub name: Seq<char>,
    pub status: Seq<char>,
    pub command: Seq<char>,
}

impl View for SimpleProcessStatus {
    type V = ProcessModel;

    open spec fn view(&self) -> ProcessModel {
        ProcessModel {
            pid: self.pid,
            name: self.name@,
            status: self.status@,
            command: self.command@,
        }
    }
}

/// The models of a sequence of listed processes.
pub open spec fn process_models(s: Seq<SimpleProcessStatus>) -> Seq<ProcessModel> {
    s.map_values(|p: SimpleProcessStatus| p@)
}

/// The lightweight process manager; it keeps no state of its own.
pub struct SimpleTinyCoreManager;

impl SimpleTinyCoreManager {
    /// A fresh manager.
    pub fn new() -> SimpleTinyCoreManager {
        SimpleTinyCoreManager
    }
}

/// The configuration used by the process-start command of the reduced
/// surface.
pub fn default_simple_config() -> (r: SimpleTinyCoreConfig)
    ensures
        r@ == (SimpleConfigModel {
            name: "udesk-simple"@,
            workspace_path: "/tmp/workspace"@,
            theme: "default"@,
            role: "user"@,
        }),
{
    let r = SimpleTinyCoreConfig {
        name: "udesk-simple".to_owned(),
        workspace_path: "/tmp/workspace".to_owned(),
        theme: "default".to_owned(),
        role: "user".to_owned(),
    };
    proof {
        assert(r@ =~= (SimpleConfigModel {
            name: "udesk-simple"@,
            workspace_path: "/tmp/workspace"@,
            theme: "default"@,
            role: "user"@,
        }));
    }
    r
}

/// Plans the direct start of the process environment.
pub fn udos_start_invocation(config: &SimpleTinyCoreConfig) -> (r: ToolInvocation)
    ensures
        r@.program == "/usr/local/bin/udos"@,
        r@.args =~= seq![
            "--background"@,
            "--workspace"@,
            config@.workspace_path,
            "--theme"@,
            config@.theme,
            "--role"@,
            config@.role,
        ],
{
    let mut args: Vec<String> = Vec::new();
    push_string(&mut args, "--background");
    push_string(&mut args, "--workspace");
    push_string(&mut args, config.workspace_path.as_str());
    push_string(&mut args, "--theme");
    push_string(&mut args, config.theme.as_str());
    push_string(&mut args, "--role");
    push_string(&mut args, config.role.as_str());
    ToolInvocation { program: "/usr/local/bin/udos".to_owned(), args }
}

/// Interprets the outcome of the direct start.
pub fn udos_start_response(outcome: &ToolOutcome) -> (r: Result<String, String>)
    ensures
        (outcome@ matches OutcomeModel::NotLaunched(e) ==> (r matches Err(m) && m@
            == "Failed to start uDOS: "@ + e)),
        (outcome@ matches OutcomeModel::Exited { success, stdout, stderr } ==> {
            &&& (success ==> (r matches Ok(m) && m@ == "uDOS started successfully: "@
                + trim_spec(stdout)))
            &&& (!success ==> (r matches Err(m) && m@ == "Failed to start uDOS: "@ + stderr))
        }),
{
    match outcome {
        ToolOutcome::NotLaunched(e) => Err(str_concat("Failed to start uDOS: ", e.as_str())),
        ToolOutcome::Exited { success, stdout, stderr } => {
            if *success {
                let t = trim(stdout.as_str());
                Ok(str_concat("uDOS started successfully: ", t.as_str()))
            } else {
                Err(str_concat("Failed to start uDOS: ", stderr.as_str()))
            }
        },
    }
}

/// Plans the probe for a running process environment.
pub fn udos_probe_invocation() -> (r: ToolInvocation)
    ensures
        r@.program == "pgrep"@,
        r@.args =~= seq!["udos"@],
{
    let mut args: Vec<String> = Vec::new();
    push_string(&mut args, "udos");
    ToolInvocation { program: "pgrep".to_owned(), args }
}

/// Interprets the probe outcome: the environment is running when the
/// probe succeeded and reported at least one process.
pub fn udos_running(outcome: &ToolOutcome) -> (r: Result<bool, String>)
    ensures
        (outcome@ matches OutcomeModel::NotLaunched(e) ==> (r matches Err(m) && m@
            == "Failed to check process: "@ + e)),
        (outcome@ matches OutcomeModel::Exited { success, stdout, stderr } ==> (r matches Ok(b)
            && b == (success && stdout.len() > 0))),
{
    match outcome {
        ToolOutcome::NotLaunched(e) => Err(str_concat("Failed to check process: ", e.as_str())),
        ToolOutcome::Exited { success, stdout, stderr: _ } => Ok(
            *success && stdout.as_str().unicode_len() != 0,
        ),
    }
}

/// Plans the stop of the process environment.
pub fn udos_stop_invocation() -> (r: ToolInvocation)
    ensures
        r@.program == "pkill"@,
        r@.args =~= seq!["udos"@],
{
    let mut args: Vec<String> = Vec::new();
    push_string(&mut args, "udos");
    ToolInvocation { program: "pkill".to_owned(), args }
}

/// Interprets the stop outcome.
pub fn udos_stop_response(outcome: &ToolOutcome) -> (r: Result<String, String>)
    ensures
        (outcome@ matches OutcomeModel::NotLaunched(e) ==> (r matches Err(m) && m@
            == "Failed to stop process: "@ + e)),
        (outcome@ matches OutcomeModel::Exited { success, stdout, stderr } ==> {
            &&& (success ==> (r matches Ok(m) && m@ == "uDOS stopped successfully"@))
            &&& (!success ==> (r matches Err(m) && m@ == "Failed to stop uDOS"@))
        }),
{
    match outcome {
        ToolOutcome::NotLaunched(e) => Err(str_concat("Failed to stop process: ", e.as_str())),
        ToolOutcome::Exited { success, stdout: _, stderr: _ } => {
            if *success {
                Ok("uDOS stopped successfully".to_owned())
            } else {
                Err("Failed to stop uDOS".to_owned())
            }
        },
    }
}

/// Plans the full process listing.
pub fn process_list_invocation() -> (r: ToolInvocation)
    ensures
        r@.program == "ps"@,
        r@.args =~= seq!["aux"@],
{
    let mut args: Vec<String> = Vec::new();
    push_string(&mut args, "aux");
    ToolInvocation { program: "ps".to_owned(), args }
}

/// The numeric value of a process id column, zero when it is not a
/// well-formed number.
pub open spec fn pid_of(s: Seq<char>) -> u32 {
    match parse_u32_spec(s) {
        Some(v) => v,
        None => 0,
    }
}

/// The process entry described by one listing line's words, if the
/// line has a command column that names the tracked programs.
pub open spec fn proc_entry(parts: Seq<Seq<char>>) -> Option<ProcessModel> {
    if parts.len() > 10 && (contains_seq(parts[10], "udos"@) || contains_seq(
        parts[10],
        "ucode"@,
    )) {
        Some(ProcessModel {
            pid: pid_of(parts[1]),
            name: parts[10],
            status: "running"@,
            command: join_seqs(parts.subrange(10, parts.len() as int), " "@),
        })
    } else {
        None
    }
}

/// The matching entries of a sequence of listing lines, in order.
pub open spec fn proc_entries(ls: Seq<Seq<char>>) -> Seq<ProcessModel>
    decreases ls.len(),
{
    if ls.len() == 0 {
        Seq::empty()
    } else {
        proc_entries(ls.drop_last()) + (match proc_entry(split_ws_spec(ls.last())) {
            Some(e) => seq![e],
            None => Seq::<ProcessModel>::empty(),
        })
    }
}

/// The process list described by the listing tool's output: every line
/// after the header whose command column names the tracked programs.
pub open spec fn process_list_spec(stdout: Seq<char>) -> Seq<ProcessModel> {
    let ls = lines_spec(stdout);
    if ls.len() == 0 {
        Seq::empty()
    } else {
        proc_entries(ls.subrange(1, ls.len() as int))
    }
}

/// Parses the process listing: skips the header line and keeps each
/// line whose command column mentions the tracked programs, with its
/// process id, name and the full command.
pub fn parse_process_list(stdout: &str) -> (r: Vec<SimpleProcessStatus>)
    ensures
        process_models(r@) == process_list_spec(stdout@),
{
    let lines = split_lines(stdout);
    let mut out: Vec<SimpleProcessStatus> = Vec::new();
    let total = lines.len();
    if total == 0 {
        proof {
            assert(process_models(out@) =~= process_list_spec(stdout@));
        }
        return out;
    }
    let ghost ls = lines.deep_view();
    let mut i: usize = 1;
    while i < total
        invariant
            1 <= i <= total,
            total == lines@.len(),
            ls == lines.deep_view(),
            ls == lines_spec(stdout@),
            ls.len() == total,
            process_models(out@) =~= proc_entries(ls.subrange(1, i as int)),
        decreases total - i,
    {
        let parts = split_whitespace(lines[i].as_str());
        let ghost pv = parts.deep_view();
        proof {
            assert(lines@[i as int]@ == ls[i as int]);
            assert(pv == split_ws_spec(ls[i as int]));
        }
        let ghost prev = process_models(out@);
        if parts.len() > 10 && (contains_sub(parts[10].as_str(), "udos") || contains_sub(
            parts[10].as_str(),
            "ucode",
        )) {
            proof {
                assert(pv[10] == parts@[10]@);
                assert(pv[1] == parts@[1]@);
            }
            let pid: u32 = match parse_u32(parts[1].as_str()) {
                Some(v) => v,
                None => 0,
            };
            let mut tail: Vec<String> = Vec::new();
            let mut k: usize = 10;
            while k < parts.len()
                invariant
                    10 <= k <= parts@.len(),
                    pv == parts.deep_view(),
                    pv.len() == parts@.len(),
                    tail.deep_view() =~= pv.subrange(10, k as int),
                decreases parts@.len() - k,
            {
                let ghost tprev = tail.deep_view();
                let piece = parts[k].clone();
                tail.push(piece);
                proof {
                    assert(tail.deep_view() =~= tprev.push(pv[k as int]));
                    assert(tail.deep_view() =~= pv.subrange(10, k as int + 1));
                }
                k += 1;
            }
            proof {
                assert(pv.subrange(10, pv.len() as int) =~= tail.deep_view());
            }
            let command = join_strings(&tail, " ");
            let entry = SimpleProcessStatus {
                pid,
                name: parts[10].clone(),
                status: "running".to_owned(),
                command,
            };
            proof {
                assert(proc_entry(pv) matches Some(e) && entry@ =~= e);
            }
            out.push(entry);
            proof {
                assert(process_models(out@) =~= prev.push(entry@));
            }
        } else {
            proof {
                assert(proc_entry(pv) is None);
            }
        }
        proof {
            assert(ls.subrange(1, i as int + 1).drop_last() =~= ls.subrange(1, i as int));
            assert(ls.subrange(1, i as int + 1).last() == ls[i as int]);
            assert(process_models(out@) =~= proc_entries(ls.subrange(1, i as int + 1)));
        }
        i += 1;
    }
    proof {
        assert(ls.subrange(1, total as int) =~= lines_spec(stdout@).subrange(
            1,
            lines_spec(stdout@).len() as int,
        ));
    }
    out
}

/// What a routed reduced-surface command asks for.
#[derive(Clone, Copy, Debug, PartialEq, Eq, Structural)]
pub enum SimpleAction {
    InfoSystem,
    InfoProcesses,
    InfoDefault,
    Status,
    Backup,
    Restore,
    HelpCommands,
    HelpDefault,
    ProcessStart,
    ProcessStop,
    ProcessList,
}

/// The reduced routing table over a parsed command triple: the verb
/// picks the handler and the option the sub-behavior; a parameter is
/// accepted and ignored by every reduced handler.
pub open spec fn simple_route_spec(m: CommandModel) -> Result<SimpleAction, Seq<char>> {
    if m.verb == "INFO"@ {
        if m.option == Some("SYSTEM"@) {
            Ok(SimpleAction::InfoSystem)
        } else if m.option == Some("PROCESSES"@) {
            Ok(SimpleAction::InfoProcesses)
        } else {
            Ok(SimpleAction::InfoDefault)
        }
    } else if m.verb == "STATUS"@ {
        Ok(SimpleAction::Status)
    } else if m.verb == "BACKUP"@ {
        Ok(SimpleAction::Backup)
    } else if m.verb == "RESTORE"@ {
        Ok(SimpleAction::Restore)
    } else if m.verb == "HELP"@ {
        if m.option == Some("COMMANDS"@) {
            Ok(SimpleAction::HelpCommands)
        } else {
            Ok(SimpleAction::HelpDefault)
        }
    } else if m.verb == "PROCESS"@ {
        if m.option == Some("START"@) {
            Ok(SimpleAction::ProcessStart)
        } else if m.option == Some("STOP"@) {
            Ok(SimpleAction::ProcessStop)
        } else if m.option == Some("LIST"@) {
            Ok(SimpleAction::ProcessList)
        } else {
            Err("Process command requires option: START, STOP, or LIST"@)
        }
    } else {
        Err("Unknown command: "@ + m.verb)
    }
}

/// Routes a parsed directive over the reduced verb set.
pub fn simple_route_command(c: &Command) -> (r: Result<SimpleAction, String>)
    ensures
        (r matches Ok(a) ==> simple_route_spec(c@) == Ok::<SimpleAction, Seq<char>>(a)),
        (r matches Err(m) ==> simple_route_spec(c@) == Err::<SimpleAction, Seq<char>>(m@)),
{
    let verb = c.verb.as_str();
    if str_eq(verb, "INFO") {
        match &c.option {
            Some(o) => {
                if str_eq(o.as_str(), "SYSTEM") {
                    Ok(SimpleAction::InfoSystem)
                } else if str_eq(o.as_str(), "PROCESSES") {
                    Ok(SimpleAction::InfoProcesses)
                } else {
                    Ok(SimpleAction::InfoDefault)
                }
            },
            None => Ok(SimpleAction::InfoDefault),
        }
    } else if str_eq(verb, "STATUS") {
        Ok(SimpleAction::Status)
    } else if str_eq(verb, "BACKUP") {
        Ok(SimpleAction::Backup)
    } else if str_eq(verb, "RESTORE") {
        Ok(SimpleAction::Restore)
    } else if str_eq(verb, "HELP") {
        match &c.option {
            Some(o) => {
                if str_eq(o.as_str(), "COMMANDS") {
                    Ok(SimpleAction::HelpCommands)
                } else {
                    Ok(SimpleAction::HelpDefault)
                }
            },
            None => Ok(SimpleAction::HelpDefault),
        }
    } else if str_eq(verb, "PROCESS") {
        match &c.option {
            Some(o) => {
                if str_eq(o.as_str(), "START") {
                    Ok(SimpleAction::ProcessStart)
                } else if str_eq(o.as_str(), "STOP") {
                    Ok(SimpleAction::ProcessStop)
                } else if str_eq(o.as_str(), "LIST") {
                    Ok(SimpleAction::ProcessList)
                } else {
                    Err("Process command requires option: START, STOP, or LIST".to_owned())
                }
            },
            None => Err("Process command requires option: START, STOP, or LIST".to_owned()),
        }
    } else {
        Err(str_concat("Unknown command: ", verb))
    }
}

/// Routes a raw reduced-surface directive. The input is trimmed and
/// parsed with the one uCODE grammar: an input that matches no
/// well-formed command is refused with the fixed format message, and a
/// parsed command is routed over the reduced verb set, its verb,
/// option and parameter as separate fields.
pub fn simple_route(command: &str) -> (r: Result<SimpleAction, String>)
    ensures
        (forall|m: CommandModel| wf_command(m) ==> render_model(m) != trim_spec(command@)) ==> (
        r matches Err(e) && e@ == "Invalid uCODE format. Use [COMMAND|OPTION*PARAMETER]"@),
        forall|m: CommandModel|
            wf_command(m) && #[trigger] render_model(m) == trim_spec(command@) ==> {
                &&& (r matches Ok(a) ==> simple_route_spec(m) == Ok::<SimpleAction, Seq<char>>(a))
                &&& (r matches Err(e) ==> simple_route_spec(m) == Err::<SimpleAction, Seq<char>>(
                    e@,
                ))
            },
{
    let trimmed = trim(command);
    match parse_ucode(trimmed.as_str()) {
        Err(_) => Err("Invalid uCODE format. Use [COMMAND|OPTION*PARAMETER]".to_owned()),
        Ok(cmd) => {
            let r = simple_route_command(&cmd);
            proof {
                assert(wf_command(cmd@) && render_model(cmd@) == trim_spec(command@));
                assert forall|m: CommandModel|
                    wf_command(m) && render_model(m) == trim_spec(command@) implies m == cmd@ by {
                    lemma_render_injective(m, cmd@);
                }
            }
            r
        },
    }
}

/// The reduced surface's fixed system information text.
pub fn simple_info_system_text() -> (r: String)
    ensures
        r@ == "uDESK v1.0.7 - TinyCore Linux\nSimple Process Management\nNo Container Overhead"@,
{
    "uDESK v1.0.7 - TinyCore Linux\nSimple Process Management\nNo Container Overhead".to_owned()
}

/// The reduced surface's process-count text.
pub fn simple_info_processes_text(count: usize) -> (r: String)
    ensures
        r@ == "Running processes: "@ + dec_str(count as nat),
{
    let c = usize_to_string(count);
    str_concat("Running processes: ", c.as_str())
}

/// The reduced surface's default information text.
pub fn simple_info_default_text() -> (r: String)
    ensures
        r@ == "uDESK v1.0.7 Information System"@,
{
    "uDESK v1.0.7 Information System".to_owned()
}

/// The reduced surface's status text: whether the process environment
/// runs, and how many matching processes there are.
pub fn simple_status_text(running: bool, count: usize) -> (r: String)
    ensures
        r@ == "uDOS Status: "@ + (if running {
            "Running"@
        } else {
            "Stopped"@
        }) + "\nProcesses: "@ + dec_str(count as nat) + " running"@,
{
    let mut s = str_concat("uDOS Status: ", if running {
        "Running"
    } else {
        "Stopped"
    });
    s.append("\nProcesses: ");
    let c = usize_to_string(count);
    s.append(c.as_str());
    s.append(" running");
    s
}

/// Interprets the reduced surface's backup outcome.
pub fn simple_backup_response(outcome: &ToolOutcome) -> (r: Result<String, String>)
    ensures
        (outcome@ matches OutcomeModel::NotLaunched(e) ==> (r matches Err(m) && m@
            == "Backup failed: "@ + e)),
        (outcome@ matches OutcomeModel::Exited { success, stdout, stderr } ==> {
            &&& (success ==> (r matches Ok(m) && m@
                == "System backup completed using filetool.sh"@))
            &&& (!success ==> (r matches Err(m) && m@ == "Backup failed"@))
        }),
{
    match outcome {
        ToolOutcome::NotLaunched(e) => Err(str_concat("Backup failed: ", e.as_str())),
        ToolOutcome::Exited { success, stdout: _, stderr: _ } => {
            if *success {
                Ok("System backup completed using filetool.sh".to_owned())
            } else {
                Err("Backup failed".to_owned())
            }
        },
    }
}

/// Interprets the reduced surface's restore outcome.
pub fn simple_restore_response(outcome: &ToolOutcome) -> (r: Result<String, String>)
    ensures
        (outcome@ matches OutcomeModel::NotLaunched(e) ==> (r matches Err(m) && m@
            == "Restore failed: "@ + e)),
        (outcome@ matches OutcomeModel::Exited { success, stdout, stderr } ==> {
            &&& (success ==> (r matches Ok(m) && m@
                == "System restore completed using filetool.sh"@))
            &&& (!success ==> (r matches Err(m) && m@ == "Restore failed"@))
        }),
{
    match outcome {
        ToolOutcome::NotLaunched(e) => Err(str_concat("Restore failed: ", e.as_str())),
        ToolOutcome::Exited { success, stdout: _, stderr: _ } => {
            if *success {
                Ok("System restore completed using filetool.sh".to_owned())
            } else {
                Err("Restore failed".to_owned())
            }
        },
    }
}

/// The reduced surface's command list.
pub fn simple_help_commands_text() -> (r: String)
    ensures
        r@ == "Available commands:\n[INFO|SYSTEM] - System info\n[STATUS] - Process status\n[BACKUP] - System backup\n[RESTORE] - System restore"@,
{
    "Available commands:\n[INFO|SYSTEM] - System info\n[STATUS] - Process status\n[BACKUP] - System backup\n[RESTORE] - System restore".to_owned()
}

/// The reduced surface's default help text.
pub fn simple_help_default_text() -> (r: String)
    ensures
        r@ == "uCODE Help System\nUse [HELP|COMMANDS] for command list"@,
{
    "uCODE Help System\nUse [HELP|COMMANDS] for command list".to_owned()
}

/// The lines of a process listing response: one line per process with
/// its id, name, status and command.
pub open spec fn process_lines(ps: Seq<ProcessModel>) -> Seq<Seq<char>> {
    ps.map_values(
        |p: ProcessModel| dec_str(p.pid as nat) + " "@ + p.name + " "@ + p.status + " "@
            + p.command,
    )
}

/// Renders the process listing response.
pub fn process_list_text(processes: &Vec<SimpleProcessStatus>) -> (r: String)
    ensures
        r@ == "Running processes:\n"@ + join_seqs(process_lines(process_models(processes@)), "\n"@),
{
    let mut lines: Vec<String> = Vec::new();
    let n = processes.len();
    let mut i: usize = 0;
    while i < n
        invariant
            i <= n,
            n == processes@.len(),
            lines@.len() == i,
            forall|k: int|
                0 <= k < i ==> lines.deep_view()[k] == process_lines(process_models(processes@))[k],
        decreases n - i,
    {
        let p = &processes[i];
        let mut line = u32_to_string(p.pid);
        line.append(" ");
        line.append(p.name.as_str());
        line.append(" ");
        line.append(p.status.as_str());
        line.append(" ");
        line.append(p.command.as_str());
        let ghost prev = lines.deep_view();
        lines.push(line);
        proof {
            assert(lines.deep_view() =~= prev.push(
                process_lines(process_models(processes@))[i as int],
            ));
        }
        i += 1;
    }
    proof {
        assert(lines.deep_view() =~= process_lines(process_models(processes@)));
    }
    let body = join_strings(&lines, "\n");
    str_concat("Running processes:\n", body.as_str())
}

/// Renders a process id in decimal.
fn u32_to_string(n: u32) -> (r: String)
    ensures
        r@ == dec_str(n as nat),
{
    usize_to_string(n as usize)
}

} // verus!
