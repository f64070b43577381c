use udesk_core::info::container_start_text;
use udesk_core::info::container_status_text;
use udesk_core::info::extension_catalog;
use udesk_core::info::extension_install_text;
use udesk_core::info::extension_list_text;
use udesk_core::info::greet;
use udesk_core::info::help_text;
use udesk_core::info::info_text;
use udesk_core::info::status_text;
use udesk_core::info::theme_list_text;
use udesk_core::info::theme_set_text;
use udesk_core::info::udesk_info;

#[test]
fn identity_names_the_four_themes_and_eight_roles() {
    let info = udesk_info("x86_64".to_string());
    assert_eq!(info.name, "uDESK");
    assert_eq!(info.version, "1.0.7");
    assert_eq!(info.architecture, "x86_64");
    assert_eq!(
        info.themes,
        vec![
            "Polaroid".to_string(),
            "C64".to_string(),
            "Macintosh".to_string(),
            "Mode 7".to_string()
        ]
    );
    assert_eq!(info.roles.len(), 8);
    assert_eq!(info.roles[0].name, "GHOST");
    assert_eq!(info.roles[0].level, 10);
    assert_eq!(info.roles[7].name, "WIZARD");
    assert_eq!(info.roles[7].level, 100);
}

#[test]
fn info_text_is_exact() {
    let info = udesk_info("aarch64".to_string());
    assert_eq!(
        info_text(&info),
        "uDESK v1.0.7\nArchitecture: aarch64\nThemes: Polaroid, C64, Macintosh, Mode 7\nRoles: 8"
    );
}

#[test]
fn status_text_is_exact() {
    assert_eq!(
        status_text(true, false, 3),
        "uDESK v1.0.7 System Status:\nDocker: Available\nTinyCore: Containerized\nExtensions: 3 loaded"
    );
    assert_eq!(
        status_text(false, true, 0),
        "uDESK v1.0.7 System Status:\nDocker: Not Available\nTinyCore: Native\nExtensions: 0 loaded"
    );
}

#[test]
fn catalog_holds_the_three_bundles() {
    let catalog = extension_catalog();
    assert_eq!(catalog.len(), 3);
    assert_eq!(catalog[0].name, "udesk-base");
    assert_eq!(catalog[1].name, "ucode-engine");
    assert_eq!(catalog[2].name, "udos-shell");
    assert!(catalog.iter().all(|e| e.version == "1.7.0" && !e.loaded));
    assert_eq!(catalog[0].description, "Core uDESK framework");
}

#[test]
fn extension_listing_is_exact() {
    let catalog = extension_catalog();
    assert_eq!(
        extension_list_text(&catalog),
        "Available extensions:\n- udesk-base\n- ucode-engine\n- udos-shell"
    );
}

#[test]
fn help_topics_are_exact() {
    assert_eq!(
        help_text(Some(&"BACKUP".to_string())),
        "BACKUP - Create system backup\nUsage: [BACKUP] or [BACKUP|FULL]"
    );
    assert_eq!(
        help_text(Some(&"RESTORE".to_string())),
        "RESTORE - Restore from backup\nUsage: [RESTORE] or [RESTORE|SELECT*PATH]"
    );
    assert_eq!(
        help_text(Some(&"THEME".to_string())),
        "THEME - Manage themes\nUsage: [THEME|SET*NAME] where NAME is: POLAROID, C64, MACINTOSH, MODE7"
    );
    let general = "uCODE v1.0.7 Commands:\n[BACKUP] [RESTORE] [REPAIR] [REBOOT]\n[STATUS] [INFO] [HELP]\n[THEME|SET*NAME] [CONTAINER|START]\nFor detailed help: [HELP|COMMAND*NAME]";
    assert_eq!(help_text(None), general);
    assert_eq!(help_text(Some(&"BOGUS".to_string())), general);
}

#[test]
fn response_texts_are_exact() {
    assert_eq!(theme_set_text("C64"), "Theme set to: C64");
    assert_eq!(
        theme_list_text(),
        "Available themes: POLAROID (default), C64, MACINTOSH, MODE7"
    );
    assert_eq!(
        container_start_text(),
        "Container start requested - would initialize TinyCore environment"
    );
    assert_eq!(container_status_text(true), "Container status: Running");
    assert_eq!(container_status_text(false), "Container status: Stopped");
    assert_eq!(extension_install_text("udesk-base"), "Installing extension: udesk-base");
}

#[test]
fn greeting_is_exact() {
    assert_eq!(
        greet("Ada"),
        "Hello, Ada! Welcome to uDESK v1.0.7 - Universal Development Environment!"
    );
}
