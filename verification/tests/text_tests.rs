use udesk_core::text::contains_sub;
use udesk_core::text::eq_upper;
use udesk_core::text::join_strings;
use udesk_core::text::parse_u32;
use udesk_core::text::split_lines;
use udesk_core::text::split_whitespace;
use udesk_core::text::str_concat;
use udesk_core::text::str_eq;
use udesk_core::text::trim;
use udesk_core::text::usize_to_string;
use udesk_core::setup::assemble_system_info;
use udesk_core::setup::check_udesk_installation;
use udesk_core::setup::first_time_setup_needed;
use udesk_core::setup::route_component;
use udesk_core::setup::version_from_probe;
use udesk_core::setup::SetupComponent;
use udesk_core::engine::ToolOutcome;

#[test]
fn string_equality_is_by_characters() {
    assert!(str_eq("abc", "abc"));
    assert!(!str_eq("abc", "abd"));
    assert!(!str_eq("abc", "ab"));
    assert!(str_eq("", ""));
}

#[test]
fn concatenation_and_case_folding() {
    assert_eq!(str_concat("foo", "bar"), "foobar");
    assert!(eq_upper("c64", "C64"));
    assert!(eq_upper("C64", "C64"));
    assert!(eq_upper("mAcInToSh", "MACINTOSH"));
    assert!(!eq_upper("atari", "C64"));
}

#[test]
fn trimming_removes_outer_whitespace_only() {
    assert_eq!(trim("  abc \t\n"), "abc");
    assert_eq!(trim("a b"), "a b");
    assert_eq!(trim("   "), "");
    assert_eq!(trim(""), "");
    assert_eq!(trim("\r\nx\r\n"), "x");
}

#[test]
fn joining_inserts_the_separator_between_pieces() {
    assert_eq!(join_strings(&vec![], ", "), "");
    assert_eq!(join_strings(&vec!["a".to_string()], ", "), "a");
    assert_eq!(
        join_strings(&vec!["a".to_string(), "b".to_string(), "c".to_string()], ", "),
        "a, b, c"
    );
}

#[test]
fn decimal_rendering_is_exact() {
    assert_eq!(usize_to_string(0), "0");
    assert_eq!(usize_to_string(7), "7");
    assert_eq!(usize_to_string(10), "10");
    assert_eq!(usize_to_string(90217), "90217");
}

#[test]
fn number_parsing_matches_the_standard_semantics() {
    assert_eq!(parse_u32("0"), Some(0));
    assert_eq!(parse_u32("42"), Some(42));
    assert_eq!(parse_u32("+42"), Some(42));
    assert_eq!(parse_u32("007"), Some(7));
    assert_eq!(parse_u32("4294967295"), Some(u32::MAX));
    assert_eq!(parse_u32("4294967296"), None);
    assert_eq!(parse_u32(""), None);
    assert_eq!(parse_u32("+"), None);
    assert_eq!(parse_u32("-1"), None);
    assert_eq!(parse_u32("1a"), None);
    assert_eq!(parse_u32(" 1"), None);
    // The verified parser agrees with the standard library on these.
    for s in ["0", "42", "+42", "007", "4294967295", "4294967296", "", "+", "-1", "1a", " 1"] {
        assert_eq!(parse_u32(s), s.parse::<u32>().ok(), "input {:?}", s);
    }
}

#[test]
fn substring_search() {
    assert!(contains_sub("hello world", "lo w"));
    assert!(contains_sub("hello", ""));
    assert!(contains_sub("udos", "udos"));
    assert!(!contains_sub("udos", "ucode"));
    assert!(!contains_sub("", "x"));
}

#[test]
fn line_splitting_matches_the_standard_semantics() {
    let cases = [
        "",
        "a",
        "a\n",
        "a\nb",
        "a\nb\n",
        "a\r\nb\r\n",
        "\n",
        "a\n\nb",
        "tail\r",
    ];
    for s in cases {
        let got = split_lines(s);
        let want: Vec<String> = s.lines().map(|l| l.to_string()).collect();
        assert_eq!(got, want, "input {:?}", s);
    }
}

#[test]
fn whitespace_splitting_matches_the_standard_semantics() {
    let cases = ["", "  ", "a", " a ", "a b", "a  b\t c ", "\tx\ny\r"];
    for s in cases {
        let got = split_whitespace(s);
        let want: Vec<String> = s.split_whitespace().map(|w| w.to_string()).collect();
        assert_eq!(got, want, "input {:?}", s);
    }
}

#[test]
fn probe_report_assembly() {
    let info = assemble_system_info(
        "Linux".to_string(),
        "x86_64".to_string(),
        Some("v20.0.0".to_string()),
        None,
        false,
        true,
        true,
        false,
    );
    assert_eq!(info.os, "Linux");
    assert_eq!(info.arch, "x86_64");
    assert_eq!(info.node_version.as_deref(), Some("v20.0.0"));
    assert!(info.rust_version.is_none());
    assert!(info.has_gcc);
    assert!(info.has_git);
    assert!(!info.udesk_installed);
}

#[test]
fn installation_check_is_the_conjunction_of_the_probes() {
    assert!(check_udesk_installation(true, true, true));
    assert!(!check_udesk_installation(false, true, true));
    assert!(!check_udesk_installation(true, false, true));
    assert!(!check_udesk_installation(true, true, false));
}

#[test]
fn first_time_setup_detection() {
    assert!(!first_time_setup_needed(true, true));
    assert!(first_time_setup_needed(false, true));
    assert!(first_time_setup_needed(true, false));
    assert!(first_time_setup_needed(false, false));
}

#[test]
fn component_routing() {
    assert_eq!(route_component("nodejs").unwrap(), SetupComponent::NodeJs);
    assert_eq!(route_component("rust").unwrap(), SetupComponent::Rust);
    assert_eq!(route_component("build-tools").unwrap(), SetupComponent::BuildTools);
    assert_eq!(route_component("workspace").unwrap(), SetupComponent::Workspace);
    assert_eq!(route_component("python").unwrap_err(), "Unknown component: python");
}

#[test]
fn version_probe_trims_successful_output() {
    let ok = ToolOutcome::Exited {
        success: true,
        stdout: "rustc 1.76.0\n".to_string(),
        stderr: String::new(),
    };
    assert_eq!(version_from_probe(&ok).as_deref(), Some("rustc 1.76.0"));
    let failed = ToolOutcome::Exited {
        success: false,
        stdout: "x".to_string(),
        stderr: String::new(),
    };
    assert!(version_from_probe(&failed).is_none());
    assert!(version_from_probe(&ToolOutcome::NotLaunched("e".to_string())).is_none());
}
