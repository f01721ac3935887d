use tuihost::config::build_child_env;
use tuihost::config::parse_env_entry;
use tuihost::config::CmdConfig;

#[test]
fn parse_env_entry_splits_at_first_separator() {
    let r = parse_env_entry(b"KEY=VALUE");
    assert_eq!(r, Some((b"KEY".to_vec(), b"VALUE".to_vec())));
}

#[test]
fn parse_env_entry_without_separator_is_malformed() {
    assert_eq!(parse_env_entry(b"JUSTANAME"), None);
    assert_eq!(parse_env_entry(b""), None);
}

#[test]
fn parse_env_entry_allows_empty_name_or_value() {
    assert_eq!(parse_env_entry(b"=v"), Some((b"".to_vec(), b"v".to_vec())));
    assert_eq!(parse_env_entry(b"k="), Some((b"k".to_vec(), b"".to_vec())));
    assert_eq!(parse_env_entry(b"="), Some((b"".to_vec(), b"".to_vec())));
}

#[test]
fn parse_env_entry_keeps_later_separators_in_the_value() {
    assert_eq!(
        parse_env_entry(b"a=b=c"),
        Some((b"a".to_vec(), b"b=c".to_vec()))
    );
}

#[test]
fn duplicate_copies_every_field() {
    let cfg = CmdConfig {
        command: "/bin/top".to_string(),
        args: vec!["-b".to_string(), "-n".to_string(), "1".to_string()],
        env: vec![
            ("COLORTERM".to_string(), "truecolor".to_string()),
            ("TZ".to_string(), "UTC".to_string()),
        ],
    };
    let copy = cfg.duplicate();
    assert_eq!(copy.command, cfg.command);
    assert_eq!(copy.args, cfg.args);
    assert_eq!(copy.env, cfg.env);
}

#[test]
fn child_env_starts_with_term_and_lang() {
    let env = build_child_env(&Vec::new());
    assert_eq!(env.len(), 2);
    assert_eq!(env[0], ("TERM".to_string(), "xterm-256color".to_string()));
    assert_eq!(env[1], ("LANG".to_string(), "en_US.UTF-8".to_string()));
}

#[test]
fn child_env_appends_overrides_in_order() {
    let overrides = vec![
        ("A".to_string(), "1".to_string()),
        ("TERM".to_string(), "dumb".to_string()),
    ];
    let env = build_child_env(&overrides);
    assert_eq!(env.len(), 4);
    assert_eq!(env[0].0, "TERM");
    assert_eq!(env[2], ("A".to_string(), "1".to_string()));
    // An override may shadow the forced terminal identity by coming later.
    assert_eq!(env[3], ("TERM".to_string(), "dumb".to_string()));
}
