//! System identity and introspection: the static system description,
//! the extension catalog, and the verified rendering of the status,
//! info, help, theme, extension and container responses.

use vstd::prelude::*;
use crate::text::str_concat;
use crate::text::push_string;
use crate::text::join_seqs;
use crate::text::join_strings;
use crate::text::dec_str;
use crate::text::usize_to_string;

verus! {

/// One operator role, with its privilege level and display symbol.
#[derive(Debug, Clone)]
pub struct RoleInfo {
    pub name: String,
    pub level: u8,
    pub symbol: String,
}

/// Mathematical model of a `RoleInfo`.
#[verifier::ext_equal]
pub struct RoleModel {
    pub name: Seq<char>,
    pub level: u8,
    pub symbol: Seq<char>,
}

impl View for RoleInfo {
    type V = RoleModel;

    open spec fn view(&self) -> RoleModel {
        RoleModel { name: self.name@, level: self.level, symbol: self.symbol@ }
    }
}

/// The static system identity.
#[derive(Debug)]
pub struct SystemInfo {
    pub name: String,
    pub version: String,
    pub architecture: String,
    pub themes: Vec<String>,
    pub roles: Vec<RoleInfo>,
}

/// Mathematical model of a `SystemInfo`.
pub struct SystemInfoModel {
    pub name: Seq<char>,
    pub version: Seq<char>,
    pub architecture: Seq<char>,
    pub themes: Seq<Seq<char>>,
    pub roles: Seq<RoleModel>,
}

impl View for SystemInfo {
    type V = SystemInfoModel;

    open spec fn view(&self) -> SystemInfoModel {
        SystemInfoModel {
            name: self.name@,
            version: self.version@,
            architecture: self.architecture@,
            themes: self.themes.deep_view(),
            roles: self.roles@.map_values(|r: RoleInfo| r@),
        }
    }
}

/// One optional feature bundle of the catalog.
#[derive(Debug, Clone)]
pub struct ExtensionInfo {
    pub name: String,
    pub version: String,
    pub description: String,
    pub loaded: bool,
}

/// Mathematical model of an `ExtensionInfo`.
#[verifier::ext_equal]
pub struct ExtensionModel {
    pub name: Seq<char>,
    pub version: Seq<char>,
    pub description: Seq<char>,
    pub loaded: bool,
}

impl View for ExtensionInfo {
    type V = ExtensionModel;

    open spec fn view(&self) -> ExtensionModel {
        ExtensionModel {
            name: self.name@,
            version: self.version@,
            description: self.description@,
            loaded: self.loaded,
        }
    }
}

/// The models of a sequence of catalog entries.
pub open spec fn extension_models(s: Seq<ExtensionInfo>) -> Seq<ExtensionModel> {
    s.map_values(|e: ExtensionInfo| e@)
}

/// Builds one role entry.
fn role(name: &str, level: u8, symbol: &str) -> (r: RoleInfo)
    ensures
        r@ == (RoleModel { name: name@, level, symbol: symbol@ }),
{
    let r = RoleInfo { name: name.to_owned(), level, symbol: symbol.to_owned() };
    proof {
        assert(r@ =~= (RoleModel { name: name@, level, symbol: symbol@ }));
    }
    r
}

/// The static system identity: name, version, the four themes and the
/// eight roles, with the machine architecture supplied by the caller.
pub fn udesk_info(architecture: String) -> (r: SystemInfo)
    ensures
        r@.name == "uDESK"@,
        r@.version == "1.0.7"@,
        r@.architecture == architecture@,
        r@.themes =~= seq!["Polaroid"@, "C64"@, "Macintosh"@, "Mode 7"@],
        r@.roles =~= seq![
            RoleModel { name: "GHOST"@, level: 10u8, symbol: "👻"@ },
            RoleModel { name: "GUEST"@, level: 20u8, symbol: "👤"@ },
            RoleModel { name: "USER"@, level: 30u8, symbol: "👨‍💻"@ },
            RoleModel { name: "ADMIN"@, level: 40u8, symbol: "🔧"@ },
            RoleModel { name: "DEV"@, level: 50u8, symbol: "🛠️"@ },
            RoleModel { name: "SYSTEM"@, level: 60u8, symbol: "⚙️"@ },
            RoleModel { name: "ROOT"@, level: 70u8, symbol: "👑"@ },
            RoleModel { name: "WIZARD"@, level: 100u8, symbol: "🧙‍♂️"@ },
        ],
{
    let mut themes: Vec<String> = Vec::new();
    push_string(&mut themes, "Polaroid");
    push_string(&mut themes, "C64");
    push_string(&mut themes, "Macintosh");
    push_string(&mut themes, "Mode 7");
    proof {
        assert(themes.deep_view() =~= seq!["Polaroid"@, "C64"@, "Macintosh"@, "Mode 7"@]);
    }
    let mut roles: Vec<RoleInfo> = Vec::new();
    roles.push(role("GHOST", 10, "👻"));
    roles.push(role("GUEST", 20, "👤"));
    roles.push(role("USER", 30, "👨‍💻"));
    roles.push(role("ADMIN", 40, "🔧"));
    roles.push(role("DEV", 50, "🛠️"));
    roles.push(role("SYSTEM", 60, "⚙️"));
    roles.push(role("ROOT", 70, "👑"));
    roles.push(role("WIZARD", 100, "🧙‍♂️"));
    let r = SystemInfo {
        name: "uDESK".to_owned(),
        version: "1.0.7".to_owned(),
        architecture,
        themes,
        roles,
    };
    proof {
        assert(r@.roles =~= seq![
            RoleModel { name: "GHOST"@, level: 10u8, symbol: "👻"@ },
            RoleModel { name: "GUEST"@, level: 20u8, symbol: "👤"@ },
            RoleModel { name: "USER"@, level: 30u8, symbol: "👨‍💻"@ },
            RoleModel { name: "ADMIN"@, level: 40u8, symbol: "🔧"@ },
            RoleModel { name: "DEV"@, level: 50u8, symbol: "🛠️"@ },
            RoleModel { name: "SYSTEM"@, level: 60u8, symbol: "⚙️"@ },
            RoleModel { name: "ROOT"@, level: 70u8, symbol: "👑"@ },
            RoleModel { name: "WIZARD"@, level: 100u8, symbol: "🧙‍♂️"@ },
        ]);
    }
    r
}

/// Builds one catalog entry.
fn extension(name: &str, version: &str, description: &str) -> (r: ExtensionInfo)
    ensures
        r@ == (ExtensionModel { name: name@, version: version@, description: description@,
            loaded: false }),
{
    let r = ExtensionInfo {
        name: name.to_owned(),
        version: version.to_owned(),
        description: description.to_owned(),
        loaded: false,
    };
    proof {
        assert(r@ =~= (ExtensionModel { name: name@, version: version@,
            description: description@, loaded: false }));
    }
    r
}

/// The static catalog of available extension bundles.
pub fn extension_catalog() -> (r: Vec<ExtensionInfo>)
    ensures
        extension_models(r@) =~= seq![
            ExtensionModel { name: "udesk-base"@, version: "1.7.0"@,
                description: "Core uDESK framework"@, loaded: false },
            ExtensionModel { name: "ucode-engine"@, version: "1.7.0"@,
                description: "uCODE command processor"@, loaded: false },
            ExtensionModel { name: "udos-shell"@, version: "1.7.0"@,
                description: "Enhanced terminal shell"@, loaded: false },
        ],
{
    let mut catalog: Vec<ExtensionInfo> = Vec::new();
    catalog.push(extension("udesk-base", "1.7.0", "Core uDESK framework"));
    catalog.push(extension("ucode-engine", "1.7.0", "uCODE command processor"));
    catalog.push(extension("udos-shell", "1.7.0", "Enhanced terminal shell"));
    catalog
}

/// The rendering of the system identity.
pub open spec fn info_text_spec(i: SystemInfoModel) -> Seq<char> {
    i.name + " v"@ + i.version + "\nArchitecture: "@ + i.architecture + "\nThemes: "@ + join_seqs(
        i.themes,
        ", "@,
    ) + "\nRoles: "@ + dec_str(i.roles.len())
}

/// Renders the system identity as the info response.
pub fn info_text(info: &SystemInfo) -> (r: String)
    ensures
        r@ == info_text_spec(info@),
{
    let mut s = str_concat(info.name.as_str(), " v");
    s.append(info.version.as_str());
    s.append("\nArchitecture: ");
    s.append(info.architecture.as_str());
    s.append("\nThemes: ");
    let themes = join_strings(&info.themes, ", ");
    s.append(themes.as_str());
    s.append("\nRoles: ");
    let count = usize_to_string(info.roles.len());
    s.append(count.as_str());
    proof {
        assert(info.roles@.map_values(|x: RoleInfo| x@).len() == info.roles@.len());
    }
    s
}

/// The rendering of the aggregate system status.
pub open spec fn status_text_spec(engine_ok: bool, native: bool, extension_count: nat)
    -> Seq<char> {
    "uDESK v1.0.7 System Status:\nDocker: "@ + (if engine_ok {
        "Available"@
    } else {
        "Not Available"@
    }) + "\nTinyCore: "@ + (if native {
        "Native"@
    } else {
        "Containerized"@
    }) + "\nExtensions: "@ + dec_str(extension_count) + " loaded"@
}

/// Renders the aggregate system status: engine availability,
/// platform-native versus containerized mode, and the extension count.
pub fn status_text(engine_ok: bool, native: bool, extension_count: usize) -> (r: String)
    ensures
        r@ == status_text_spec(engine_ok, native, extension_count as nat),
{
    let mut s = String::new();
    s.append("uDESK v1.0.7 System Status:\nDocker: ");
    proof {
        assert(s@ =~= "uDESK v1.0.7 System Status:\nDocker: "@);
    }
    if engine_ok {
        s.append("Available");
    } else {
        s.append("Not Available");
    }
    s.append("\nTinyCore: ");
    if native {
        s.append("Native");
    } else {
        s.append("Containerized");
    }
    s.append("\nExtensions: ");
    let count = usize_to_string(extension_count);
    s.append(count.as_str());
    s.append(" loaded");
    s
}

/// The usage text for a help topic: verb-specific text for the topics
/// that have one, the general usage text for everything else. Help
/// never fails.
pub open spec fn help_text_spec(topic: Option<Seq<char>>) -> Seq<char> {
    if topic == Some("BACKUP"@) {
        "BACKUP - Create system backup\nUsage: [BACKUP] or [BACKUP|FULL]"@
    } else if topic == Some("RESTORE"@) {
        "RESTORE - Restore from backup\nUsage: [RESTORE] or [RESTORE|SELECT*PATH]"@
    } else if topic == Some("THEME"@) {
        "THEME - Manage themes\nUsage: [THEME|SET*NAME] where NAME is: POLAROID, C64, MACINTOSH, MODE7"@
    } else {
        "uCODE v1.0.7 Commands:\n[BACKUP] [RESTORE] [REPAIR] [REBOOT]\n[STATUS] [INFO] [HELP]\n[THEME|SET*NAME] [CONTAINER|START]\nFor detailed help: [HELP|COMMAND*NAME]"@
    }
}

/// Renders the help response for an optional topic.
pub fn help_text(topic: Option<&String>) -> (r: String)
    ensures
        r@ == help_text_spec(
            match topic {
                Some(t) => Some(t@),
                None => None,
            },
        ),
{
    match topic {
        Some(t) => {
            if crate::text::str_eq(t.as_str(), "BACKUP") {
                "BACKUP - Create system backup\nUsage: [BACKUP] or [BACKUP|FULL]".to_owned()
            } else if crate::text::str_eq(t.as_str(), "RESTORE") {
                "RESTORE - Restore from backup\nUsage: [RESTORE] or [RESTORE|SELECT*PATH]".to_owned()
            } else if crate::text::str_eq(t.as_str(), "THEME") {
                "THEME - Manage themes\nUsage: [THEME|SET*NAME] where NAME is: POLAROID, C64, MACINTOSH, MODE7".to_owned()
            } else {
                "uCODE v1.0.7 Commands:\n[BACKUP] [RESTORE] [REPAIR] [REBOOT]\n[STATUS] [INFO] [HELP]\n[THEME|SET*NAME] [CONTAINER|START]\nFor detailed help: [HELP|COMMAND*NAME]".to_owned()
            }
        },
        None => {
            "uCODE v1.0.7 Commands:\n[BACKUP] [RESTORE] [REPAIR] [REBOOT]\n[STATUS] [INFO] [HELP]\n[THEME|SET*NAME] [CONTAINER|START]\nFor detailed help: [HELP|COMMAND*NAME]".to_owned()
        },
    }
}

/// The response to a theme selection: the canonical upper-case name.
pub fn theme_set_text(canonical: &str) -> (r: String)
    ensures
        r@ == "Theme set to: "@ + canonical@,
{
    str_concat("Theme set to: ", canonical)
}

/// The response to a theme listing.
pub fn theme_list_text() -> (r: String)
    ensures
        r@ == "Available themes: POLAROID (default), C64, MACINTOSH, MODE7"@,
{
    "Available themes: POLAROID (default), C64, MACINTOSH, MODE7".to_owned()
}

/// The acknowledgment that a container start was requested.
pub fn container_start_text() -> (r: String)
    ensures
        r@ == "Container start requested - would initialize TinyCore environment"@,
{
    "Container start requested - would initialize TinyCore environment".to_owned()
}

/// The response to a container status query.
pub fn container_status_text(running: bool) -> (r: String)
    ensures
        r@ == "Container status: "@ + (if running {
            "Running"@
        } else {
            "Stopped"@
        }),
{
    if running {
        str_concat("Container status: ", "Running")
    } else {
        str_concat("Container status: ", "Stopped")
    }
}

/// The response to an extension install request.
pub fn extension_install_text(name: &str) -> (r: String)
    ensures
        r@ == "Installing extension: "@ + name@,
{
    str_concat("Installing extension: ", name)
}

/// The listing lines of a catalog: one dashed line per entry name.
pub open spec fn extension_lines(s: Seq<ExtensionModel>) -> Seq<Seq<char>> {
    s.map_values(|e: ExtensionModel| "- "@ + e.name)
}

/// Renders the catalog listing response.
pub fn extension_list_text(catalog: &Vec<ExtensionInfo>) -> (r: String)
    ensures
        r@ == "Available extensions:\n"@ + join_seqs(
            extension_lines(extension_models(catalog@)),
            "\n"@,
        ),
{
    let mut lines: Vec<String> = Vec::new();
    let n = catalog.len();
    let mut i: usize = 0;
    while i < n
        invariant
            i <= n,
            n == catalog@.len(),
            lines@.len() == i,
            forall|k: int| 0 <= k < i ==> lines.deep_view()[k] == "- "@ + catalog@[k]@.name,
        decreases n - i,
    {
        let line = str_concat("- ", catalog[i].name.as_str());
        let ghost prev = lines.deep_view();
        lines.push(line);
        proof {
            assert(lines.deep_view() =~= prev.push("- "@ + catalog@[i as int]@.name));
        }
        i += 1;
    }
    proof {
        assert(lines.deep_view() =~= extension_lines(extension_models(catalog@)));
    }
    let body = join_strings(&lines, "\n");
    str_concat("Available extensions:\n", body.as_str())
}

/// The greeting of the command surface.
pub fn greet(name: &str) -> (r: String)
    ensures
        r@ == "Hello, "@ + name@
            + "! Welcome to uDESK v1.0.7 - Universal Development Environment!"@,
{
    let mut s = str_concat("Hello, ", name);
    s.append("! Welcome to uDESK v1.0.7 - Universal Development Environment!");
    s
}

} // verus!
