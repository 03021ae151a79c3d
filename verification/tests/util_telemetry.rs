use runkarsk::telemetry::{format_console_line, otlp_endpoint, Level};
use runkarsk::util::{first_word_of, have_linux_module, white_space};

fn strings(lines: &[&str]) -> Vec<String> {
    lines.iter().map(|a| a.to_string()).collect()
}

#[test]
fn first_word_of_a_line() {
    assert_eq!(first_word_of("bnxt_re 286720 0 - Live 0x0"), Some("bnxt_re".to_string()));
    assert_eq!(first_word_of("\t  ib_core 1 2"), Some("ib_core".to_string()));
    assert_eq!(first_word_of("\u{3000}wide\u{3000}space"), Some("wide".to_string()));
    assert_eq!(first_word_of("   "), None);
    assert_eq!(first_word_of(""), None);
}

#[test]
fn module_listed_by_first_word() {
    let modules = strings(&["ib_core 1 2 - Live", "bnxt_re 286720 0 - Live 0x0", "x bnxt_en"]);
    assert!(have_linux_module("bnxt_re", &modules));
    assert!(have_linux_module("ib_core", &modules));
    assert!(!have_linux_module("bnxt_en", &modules));
    assert!(!have_linux_module("bnxt", &modules));
    assert!(!have_linux_module("bnxt_re", &Vec::new()));
}

#[test]
fn plain_console_line() {
    assert_eq!(format_console_line("runcirrus", Level::Info, false, "started"), "runcirrus (INFO) started");
    assert_eq!(format_console_line("runner", Level::Error, false, ""), "runner (ERROR) ");
}

#[test]
fn coloured_console_line() {
    assert_eq!(
        format_console_line("runcirrus", Level::Warn, true, "slow"),
        "\x1b[1;37mruncirrus\x1b[0m (\x1b[1;33mWARN\x1b[0m) slow"
    );
    assert_eq!(
        format_console_line("r", Level::Trace, true, "m"),
        "\x1b[1;37mr\x1b[0m (\x1b[35mTRACE\x1b[0m) m"
    );
    assert_eq!(
        format_console_line("r", Level::Debug, true, "m"),
        "\x1b[1;37mr\x1b[0m (\x1b[37mDEBUG\x1b[0m) m"
    );
}

#[test]
fn endpoint_from_run_time_first() {
    assert_eq!(
        otlp_endpoint(Some("http://a:4317".to_string()), Some("http://b:4317".to_string())),
        Some("http://a:4317".to_string())
    );
    assert_eq!(otlp_endpoint(None, Some("http://b:4317".to_string())), Some("http://b:4317".to_string()));
    assert_eq!(otlp_endpoint(None, None), None);
}

#[test]
fn white_space_as_std_has_it() {
    for code in 0u32..0x11000 {
        if let Some(c) = char::from_u32(code) {
            assert_eq!(white_space(c), c.is_whitespace(), "U+{:04X}", code);
        }
    }
}
