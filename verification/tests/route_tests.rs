use udesk_core::ucode::parse_ucode;
use udesk_core::route::route;
use udesk_core::route::Action;
use udesk_core::route::MaintenanceKind;
use udesk_core::route::UcodeError;
use udesk_core::info::help_text;

fn route_str(s: &str) -> Result<Action, UcodeError> {
    route(&parse_ucode(s).unwrap())
}

#[test]
fn every_fixed_verb_has_a_handler() {
    assert_eq!(route_str("[BACKUP]").unwrap(), Action::Maintenance(MaintenanceKind::Backup));
    assert_eq!(route_str("[RESTORE]").unwrap(), Action::Maintenance(MaintenanceKind::Restore));
    assert_eq!(route_str("[DESTROY]").unwrap(), Action::Maintenance(MaintenanceKind::Destroy));
    assert_eq!(route_str("[REBOOT]").unwrap(), Action::Maintenance(MaintenanceKind::Reboot));
    assert_eq!(route_str("[REPAIR]").unwrap(), Action::Maintenance(MaintenanceKind::Repair));
    assert_eq!(route_str("[UNDO]").unwrap(), Action::Maintenance(MaintenanceKind::Undo));
    assert_eq!(route_str("[REDO]").unwrap(), Action::Maintenance(MaintenanceKind::Redo));
    assert_eq!(route_str("[STATUS]").unwrap(), Action::QueryStatus);
    assert_eq!(route_str("[INFO]").unwrap(), Action::ShowInfo);
    assert_eq!(route_str("[HELP]").unwrap(), Action::ShowHelp(None));
    assert_eq!(route_str("[CONTAINER|START]").unwrap(), Action::ContainerStart);
    assert_eq!(route_str("[EXTENSION|LIST]").unwrap(), Action::ExtensionCatalog);
    assert_eq!(route_str("[THEME|LIST]").unwrap(), Action::ThemeCatalog);
}

#[test]
fn unknown_verb_is_reported_with_its_name() {
    let e = route_str("[LAUNCH]").unwrap_err();
    assert_eq!(e, UcodeError::UnknownCommand("LAUNCH".to_string()));
    assert_eq!(e.message(), "Unknown uCODE command: LAUNCH");
}

#[test]
fn container_start_routes_to_lifecycle() {
    // Syntactically valid with an option and no parameter.
    let c = parse_ucode("[CONTAINER|START]").unwrap();
    assert_eq!(c.verb, "CONTAINER");
    assert_eq!(c.option.as_deref(), Some("START"));
    assert!(c.parameter.is_none());
    assert_eq!(route(&c).unwrap(), Action::ContainerStart);
}

#[test]
fn container_without_option_is_invalid_usage() {
    let e = route_str("[CONTAINER]").unwrap_err();
    assert_eq!(
        e.message(),
        "Invalid container command. Use: [CONTAINER|START] or [CONTAINER|STATUS]"
    );
    assert!(matches!(e, UcodeError::InvalidUsage(_)));
}

#[test]
fn extension_install_without_parameter_fails_before_the_engine() {
    let e = route_str("[EXTENSION|INSTALL]").unwrap_err();
    assert!(matches!(e, UcodeError::InvalidUsage(_)));
    assert_eq!(e.message(), "Extension name required. Use: [EXTENSION|INSTALL*NAME]");
}

#[test]
fn extension_install_with_parameter_carries_the_name() {
    assert_eq!(
        route_str("[EXTENSION|INSTALL*udesk-base]").unwrap(),
        Action::ExtensionInstall("udesk-base".to_string())
    );
}

#[test]
fn theme_set_normalizes_case() {
    assert_eq!(route_str("[THEME|SET*c64]").unwrap(), Action::ThemeSet("C64".to_string()));
    assert_eq!(route_str("[THEME|SET*C64]").unwrap(), Action::ThemeSet("C64".to_string()));
    assert_eq!(
        route_str("[THEME|SET*macintosh]").unwrap(),
        Action::ThemeSet("MACINTOSH".to_string())
    );
}

#[test]
fn theme_outside_the_fixed_set_is_invalid_choice() {
    let e = route_str("[THEME|SET*atari]").unwrap_err();
    assert!(matches!(e, UcodeError::InvalidChoice(_)));
    assert_eq!(e.message(), "Invalid theme. Available: POLAROID, C64, MACINTOSH, MODE7");
}

#[test]
fn theme_set_without_name_is_invalid_usage() {
    let e = route_str("[THEME|SET]").unwrap_err();
    assert_eq!(e.message(), "Theme name required. Use: [THEME|SET*NAME]");
}

#[test]
fn help_theme_names_all_four_themes() {
    let c = parse_ucode("[HELP|THEME]").unwrap();
    let topic = match route(&c).unwrap() {
        Action::ShowHelp(t) => t,
        other => panic!("routed to {:?}", other),
    };
    let text = help_text(topic.as_ref());
    assert!(text.contains("POLAROID"));
    assert!(text.contains("C64"));
    assert!(text.contains("MACINTOSH"));
    assert!(text.contains("MODE7"));
}

#[test]
fn help_unknown_topic_falls_back_to_general_usage() {
    let c = parse_ucode("[HELP|BOGUS]").unwrap();
    let topic = match route(&c).unwrap() {
        Action::ShowHelp(t) => t,
        other => panic!("routed to {:?}", other),
    };
    let text = help_text(topic.as_ref());
    assert!(text.starts_with("uCODE v1.0.7 Commands:"));
}

#[test]
fn parse_error_message_names_the_input() {
    let e = UcodeError::Parse("[bogus".to_string());
    assert_eq!(e.message(), "Invalid uCODE syntax: [bogus");
}
