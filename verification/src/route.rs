//! Routing of parsed commands to their domain handlers.
//!
//! The routing table is a flat, stateless function over the verb and
//! option of a command. Verbs outside the fixed set fail with
//! `UnknownCommand`; recognized verbs validate their own option and
//! parameter and fail with `InvalidUsage` or `InvalidChoice`.

use vstd::prelude::*;
use crate::text::str_eq;
use crate::text::str_concat;
use crate::text::eq_upper;
use crate::text::upper_seq;
use crate::ucode::CommandModel;
use crate::ucode::Command;

verus! {

/// The system-maintenance operations, each backed by a fixed external
/// tool invocation.
#[derive(Clone, Copy, Debug, PartialEq, Eq, Structural)]
pub enum MaintenanceKind {
    Backup,
    Restore,
    Destroy,
    Reboot,
    Repair,
    Undo,
    Redo,
}

/// What a routed command asks the system to do. Everything the handler
/// needs beyond outside-world facts is carried in the variant.
#[derive(Debug, PartialEq, Eq)]
pub enum Action {
    Maintenance(MaintenanceKind),
    QueryStatus,
    ShowInfo,
    ShowHelp(Option<String>),
    ContainerStart,
    ContainerQuery,
    ExtensionCatalog,
    ExtensionInstall(String),
    ThemeSet(String),
    ThemeCatalog,
}

/// The error taxonomy of the command protocol.
#[derive(Debug, PartialEq, Eq)]
pub enum UcodeError {
    /// Input did not match the uCODE grammar; carries the raw input.
    Parse(String),
    /// Verb not in the routing table; carries the verb.
    UnknownCommand(String),
    /// Verb recognized but option or parameter missing or malformed;
    /// carries the usage message.
    InvalidUsage(String),
    /// Parameter provided but outside a closed enumeration; carries
    /// the message naming the valid choices.
    InvalidChoice(String),
    /// An external engine invocation failed; carries the diagnostic.
    Engine(String),
    /// An operation expected state that was absent; carries the message.
    State(String),
}

/// Mathematical model of an `Action`.
pub enum ActionModel {
    Maintenance(MaintenanceKind),
    QueryStatus,
    ShowInfo,
    ShowHelp(Option<Seq<char>>),
    ContainerStart,
    ContainerQuery,
    ExtensionCatalog,
    ExtensionInstall(Seq<char>),
    ThemeSet(Seq<char>),
    ThemeCatalog,
}

/// Mathematical model of a `UcodeError`.
pub enum ErrorModel {
    Parse(Seq<char>),
    UnknownCommand(Seq<char>),
    InvalidUsage(Seq<char>),
    InvalidChoice(Seq<char>),
    Engine(Seq<char>),
    State(Seq<char>),
}

impl View for Action {
    type V = ActionModel;

    open spec fn view(&self) -> ActionModel {
        match self {
            Action::Maintenance(k) => ActionModel::Maintenance(*k),
            Action::QueryStatus => ActionModel::QueryStatus,
            Action::ShowInfo => ActionModel::ShowInfo,
            Action::ShowHelp(t) => ActionModel::ShowHelp(
                match t {
                    Some(s) => Some(s@),
                    None => None,
                },
            ),
            Action::ContainerStart => ActionModel::ContainerStart,
            Action::ContainerQuery => ActionModel::ContainerQuery,
            Action::ExtensionCatalog => ActionModel::ExtensionCatalog,
            Action::ExtensionInstall(n) => ActionModel::ExtensionInstall(n@),
            Action::ThemeSet(t) => ActionModel::ThemeSet(t@),
            Action::ThemeCatalog => ActionModel::ThemeCatalog,
        }
    }
}

impl View for UcodeError {
    type V = ErrorModel;

    open spec fn view(&self) -> ErrorModel {
        match self {
            UcodeError::Parse(s) => ErrorModel::Parse(s@),
            UcodeError::UnknownCommand(s) => ErrorModel::UnknownCommand(s@),
            UcodeError::InvalidUsage(s) => ErrorModel::InvalidUsage(s@),
            UcodeError::InvalidChoice(s) => ErrorModel::InvalidChoice(s@),
            UcodeError::Engine(s) => ErrorModel::Engine(s@),
            UcodeError::State(s) => ErrorModel::State(s@),
        }
    }
}

/// The canonical form of a theme name: its ASCII uppercase folding if
/// that folding is one of the four supported themes.
pub open spec fn canonical_theme(p: Seq<char>) -> Option<Seq<char>> {
    if upper_seq(p) == "POLAROID"@ {
        Some("POLAROID"@)
    } else if upper_seq(p) == "C64"@ {
        Some("C64"@)
    } else if upper_seq(p) == "MACINTOSH"@ {
        Some("MACINTOSH"@)
    } else if upper_seq(p) == "MODE7"@ {
        Some("MODE7"@)
    } else {
        None
    }
}

/// The fixed verb set of the routing table.
pub open spec fn known_verb(v: Seq<char>) -> bool {
    ||| v == "BACKUP"@
    ||| v == "RESTORE"@
    ||| v == "DESTROY"@
    ||| v == "REBOOT"@
    ||| v == "REPAIR"@
    ||| v == "UNDO"@
    ||| v == "REDO"@
    ||| v == "STATUS"@
    ||| v == "INFO"@
    ||| v == "HELP"@
    ||| v == "CONTAINER"@
    ||| v == "EXTENSION"@
    ||| v == "THEME"@
}

/// The routing table over a command triple.
pub open spec fn route_spec(m: CommandModel) -> Result<ActionModel, ErrorModel> {
    if m.verb == "BACKUP"@ {
        Ok(ActionModel::Maintenance(MaintenanceKind::Backup))
    } else if m.verb == "RESTORE"@ {
        Ok(ActionModel::Maintenance(MaintenanceKind::Restore))
    } else if m.verb == "DESTROY"@ {
        Ok(ActionModel::Maintenance(MaintenanceKind::Destroy))
    } else if m.verb == "REBOOT"@ {
        Ok(ActionModel::Maintenance(MaintenanceKind::Reboot))
    } else if m.verb == "REPAIR"@ {
        Ok(ActionModel::Maintenance(MaintenanceKind::Repair))
    } else if m.verb == "UNDO"@ {
        Ok(ActionModel::Maintenance(MaintenanceKind::Undo))
    } else if m.verb == "REDO"@ {
        Ok(ActionModel::Maintenance(MaintenanceKind::Redo))
    } else if m.verb == "STATUS"@ {
        Ok(ActionModel::QueryStatus)
    } else if m.verb == "INFO"@ {
        Ok(ActionModel::ShowInfo)
    } else if m.verb == "HELP"@ {
        Ok(ActionModel::ShowHelp(m.option))
    } else if m.verb == "CONTAINER"@ {
        if m.option == Some("START"@) {
            Ok(ActionModel::ContainerStart)
        } else if m.option == Some("STATUS"@) {
            Ok(ActionModel::ContainerQuery)
        } else {
            Err(ErrorModel::InvalidUsage(
                "Invalid container command. Use: [CONTAINER|START] or [CONTAINER|STATUS]"@,
            ))
        }
    } else if m.verb == "EXTENSION"@ {
        if m.option == Some("LIST"@) {
            Ok(ActionModel::ExtensionCatalog)
        } else if m.option == Some("INSTALL"@) {
            match m.parameter {
                Some(p) => Ok(ActionModel::ExtensionInstall(p)),
                None => Err(ErrorModel::InvalidUsage(
                    "Extension name required. Use: [EXTENSION|INSTALL*NAME]"@,
                )),
            }
        } else {
            Err(ErrorModel::InvalidUsage(
                "Invalid extension command. Use: [EXTENSION|LIST] or [EXTENSION|INSTALL*NAME]"@,
            ))
        }
    } else if m.verb == "THEME"@ {
        if m.option == Some("SET"@) {
            match m.parameter {
                Some(p) => match canonical_theme(p) {
                    Some(t) => Ok(ActionModel::ThemeSet(t)),
                    None => Err(ErrorModel::InvalidChoice(
                        "Invalid theme. Available: POLAROID, C64, MACINTOSH, MODE7"@,
                    )),
                },
                None => Err(ErrorModel::InvalidUsage(
                    "Theme name required. Use: [THEME|SET*NAME]"@,
                )),
            }
        } else if m.option == Some("LIST"@) {
            Ok(ActionModel::ThemeCatalog)
        } else {
            Err(ErrorModel::InvalidUsage(
                "Invalid theme command. Use: [THEME|SET*NAME] or [THEME|LIST]"@,
            ))
        }
    } else {
        Err(ErrorModel::UnknownCommand(m.verb))
    }
}

/// Routing totality: a verb in the fixed set is never answered with
/// `UnknownCommand`, a verb outside it always is, and the reported
/// unknown verb is the command's own.
pub proof fn lemma_routing_totality(m: CommandModel)
    ensures
        known_verb(m.verb) <==> !(route_spec(m) matches Err(ErrorModel::UnknownCommand(_))),
        route_spec(m) matches Err(ErrorModel::UnknownCommand(v)) ==> v == m.verb,
{
}

/// Routes a command to its domain action, or reports the typed error.
pub fn route(c: &Command) -> (r: Result<Action, UcodeError>)
    ensures
        (r matches Ok(a) ==> route_spec(c@) == Ok::<ActionModel, ErrorModel>(a@)),
        (r matches Err(e) ==> route_spec(c@) == Err::<ActionModel, ErrorModel>(e@)),
{
    let verb = c.verb.as_str();
    if str_eq(verb, "BACKUP") {
        Ok(Action::Maintenance(MaintenanceKind::Backup))
    } else if str_eq(verb, "RESTORE") {
        Ok(Action::Maintenance(MaintenanceKind::Restore))
    } else if str_eq(verb, "DESTROY") {
        Ok(Action::Maintenance(MaintenanceKind::Destroy))
    } else if str_eq(verb, "REBOOT") {
        Ok(Action::Maintenance(MaintenanceKind::Reboot))
    } else if str_eq(verb, "REPAIR") {
        Ok(Action::Maintenance(MaintenanceKind::Repair))
    } else if str_eq(verb, "UNDO") {
        Ok(Action::Maintenance(MaintenanceKind::Undo))
    } else if str_eq(verb, "REDO") {
        Ok(Action::Maintenance(MaintenanceKind::Redo))
    } else if str_eq(verb, "STATUS") {
        Ok(Action::QueryStatus)
    } else if str_eq(verb, "INFO") {
        Ok(Action::ShowInfo)
    } else if str_eq(verb, "HELP") {
        let topic = match &c.option {
            Some(o) => Some(o.clone()),
            None => None,
        };
        Ok(Action::ShowHelp(topic))
    } else if str_eq(verb, "CONTAINER") {
        match &c.option {
            Some(o) => {
                if str_eq(o.as_str(), "START") {
                    Ok(Action::ContainerStart)
                } else if str_eq(o.as_str(), "STATUS") {
                    Ok(Action::ContainerQuery)
                } else {
                    Err(UcodeError::InvalidUsage(
                        "Invalid container command. Use: [CONTAINER|START] or [CONTAINER|STATUS]".to_owned(),
                    ))
                }
            },
            None => Err(UcodeError::InvalidUsage(
                "Invalid container command. Use: [CONTAINER|START] or [CONTAINER|STATUS]".to_owned(),
            )),
        }
    } else if str_eq(verb, "EXTENSION") {
        match &c.option {
            Some(o) => {
                if str_eq(o.as_str(), "LIST") {
                    Ok(Action::ExtensionCatalog)
                } else if str_eq(o.as_str(), "INSTALL") {
                    match &c.parameter {
                        Some(p) => Ok(Action::ExtensionInstall(p.clone())),
                        None => Err(UcodeError::InvalidUsage(
                            "Extension name required. Use: [EXTENSION|INSTALL*NAME]".to_owned(),
                        )),
                    }
                } else {
                    Err(UcodeError::InvalidUsage(
                        "Invalid extension command. Use: [EXTENSION|LIST] or [EXTENSION|INSTALL*NAME]".to_owned(),
                    ))
                }
            },
            None => Err(UcodeError::InvalidUsage(
                "Invalid extension command. Use: [EXTENSION|LIST] or [EXTENSION|INSTALL*NAME]".to_owned(),
            )),
        }
    } else if str_eq(verb, "THEME") {
        match &c.option {
            Some(o) => {
                if str_eq(o.as_str(), "SET") {
                    match &c.parameter {
                        Some(p) => theme_choice(p.as_str()),
                        None => Err(UcodeError::InvalidUsage(
                            "Theme name required. Use: [THEME|SET*NAME]".to_owned(),
                        )),
                    }
                } else if str_eq(o.as_str(), "LIST") {
                    Ok(Action::ThemeCatalog)
                } else {
                    Err(UcodeError::InvalidUsage(
                        "Invalid theme command. Use: [THEME|SET*NAME] or [THEME|LIST]".to_owned(),
                    ))
                }
            },
            None => Err(UcodeError::InvalidUsage(
                "Invalid theme command. Use: [THEME|SET*NAME] or [THEME|LIST]".to_owned(),
            )),
        }
    } else {
        Err(UcodeError::UnknownCommand(c.verb.clone()))
    }
}

/// Validates a theme parameter against the closed theme set, folding
/// it to upper case first.
fn theme_choice(p: &str) -> (r: Result<Action, UcodeError>)
    ensures
        (r matches Ok(a) ==> canonical_theme(p@) matches Some(t) && a@ == ActionModel::ThemeSet(
            t,
        )),
        (r matches Err(e) ==> canonical_theme(p@) is None && e@ == ErrorModel::InvalidChoice(
            "Invalid theme. Available: POLAROID, C64, MACINTOSH, MODE7"@,
        )),
{
    if eq_upper(p, "POLAROID") {
        Ok(Action::ThemeSet("POLAROID".to_owned()))
    } else if eq_upper(p, "C64") {
        Ok(Action::ThemeSet("C64".to_owned()))
    } else if eq_upper(p, "MACINTOSH") {
        Ok(Action::ThemeSet("MACINTOSH".to_owned()))
    } else if eq_upper(p, "MODE7") {
        Ok(Action::ThemeSet("MODE7".to_owned()))
    } else {
        Err(UcodeError::InvalidChoice(
            "Invalid theme. Available: POLAROID, C64, MACINTOSH, MODE7".to_owned(),
        ))
    }
}

impl UcodeError {
    /// The one-line human-readable message of an error, as surfaced to
    /// the caller of the command surface.
    pub open spec fn message_spec(e: ErrorModel) -> Seq<char> {
        match e {
            ErrorModel::Parse(raw) => "Invalid uCODE syntax: "@ + raw,
            ErrorModel::UnknownCommand(v) => "Unknown uCODE command: "@ + v,
            ErrorModel::InvalidUsage(msg) => msg,
            ErrorModel::InvalidChoice(msg) => msg,
            ErrorModel::Engine(d) => d,
            ErrorModel::State(d) => d,
        }
    }

    /// Renders the error as its one-line message.
    pub fn message(&self) -> (r: String)
        ensures
            r@ == UcodeError::message_spec(self@),
    {
        match self {
            UcodeError::Parse(raw) => str_concat("Invalid uCODE syntax: ", raw.as_str()),
            UcodeError::UnknownCommand(v) => str_concat("Unknown uCODE command: ", v.as_str()),
            UcodeError::InvalidUsage(msg) => msg.clone(),
            UcodeError::InvalidChoice(msg) => msg.clone(),
            UcodeError::Engine(d) => d.clone(),
            UcodeError::State(d) => d.clone(),
        }
    }
}

} // verus!
