use txr::{
    choose_launch, config_path, editor_of, layout_path, load_or_create_default_config,
    make_session_name, modify_existing_layout, pane_block, parse_config, quote_args, replace_placeholder,
    temp_layout_path, unique_session_name, Launch, DEFAULT_CONFIG,
};

fn strings(items: &[&str]) -> Vec<String> {
    items.iter().map(|s| s.to_string()).collect()
}

#[test]
fn absent_config_gives_written_default() {
    let loaded = load_or_create_default_config(None);
    assert!(loaded.write_default);
    assert_eq!(editor_of(&loaded.table), "nvim");
    assert_eq!(
        loaded.table.get("multiplexer").and_then(|v| v.as_str()),
        Some("tmux")
    );
    assert_eq!(loaded.table.len(), 2);
}

#[test]
fn readable_config_is_taken_as_it_is() {
    let loaded = load_or_create_default_config(Some("editor = \"hx\"\nmultiplexer = \"zellij\"\n"));
    assert!(!loaded.write_default);
    assert_eq!(editor_of(&loaded.table), "hx");
    assert_eq!(
        loaded.table.get("multiplexer").and_then(|v| v.as_str()),
        Some("zellij")
    );
}

#[test]
fn unparsable_config_falls_back_to_default() {
    let loaded = load_or_create_default_config(Some("editor = "));
    assert!(loaded.write_default);
    assert_eq!(editor_of(&loaded.table), "nvim");
}

#[test]
fn default_config_text_parses() {
    let table = parse_config(DEFAULT_CONFIG).unwrap();
    assert_eq!(editor_of(&table), "nvim");
}

#[test]
fn parse_config_rejects_broken_toml() {
    assert!(parse_config("[unclosed").is_none());
    assert!(parse_config("").is_some());
}

#[test]
fn editor_missing_or_not_a_string_is_nvim() {
    let empty = parse_config("").unwrap();
    assert_eq!(editor_of(&empty), "nvim");
    let number = parse_config("editor = 3").unwrap();
    assert_eq!(editor_of(&number), "nvim");
    let other = parse_config("multiplexer = \"tmux\"").unwrap();
    assert_eq!(editor_of(&other), "nvim");
}

#[test]
fn editor_from_config() {
    let table = parse_config("editor = \"emacs -nw\"").unwrap();
    assert_eq!(editor_of(&table), "emacs -nw");
}

#[test]
fn quote_args_gives_one_string_each() {
    assert_eq!(quote_args(&[]), "");
    assert_eq!(quote_args(&strings(&["a.rs"])), " \"a.rs\"");
    assert_eq!(
        quote_args(&strings(&["a.rs", "b c", "d"])),
        " \"a.rs\" \"b c\" \"d\""
    );
}

#[test]
fn quote_args_escapes_quotes_and_backslashes() {
    assert_eq!(
        quote_args(&strings(&["say \"hi\"", "C:\\dir\\f"])),
        " \"say \\\"hi\\\"\" \"C:\\\\dir\\\\f\""
    );
    assert_eq!(quote_args(&strings(&[""])), " \"\"");
}

#[test]
fn pane_block_with_args() {
    assert_eq!(
        pane_block("nvim", &strings(&[".cargo-lock"])),
        "pane {\n    command \"nvim\"\n    args \"--\" \".cargo-lock\"\n    focus true\n}"
    );
    assert_eq!(
        pane_block("hx", &strings(&["a", "b"])),
        "pane {\n    command \"hx\"\n    args \"--\" \"a\" \"b\"\n    focus true\n}"
    );
}

#[test]
fn pane_block_without_args() {
    assert_eq!(
        pane_block("vim", &[]),
        "pane {\n    command \"vim\"\n    focus true\n}"
    );
}

#[test]
fn replace_placeholder_replaces_every_occurrence() {
    let layout = "layout {\n  pane command=\"nvim\"\n  pane command=\"nvim\"\n}";
    assert_eq!(
        replace_placeholder(layout, "X"),
        "layout {\n  X\n  X\n}"
    );
}

#[test]
fn replace_placeholder_without_placeholder_keeps_text() {
    let layout = "layout {\n  pane command=\"vim\"\n  pane command=\"nvi\"\n}";
    assert_eq!(replace_placeholder(layout, "X"), layout);
    assert_eq!(replace_placeholder("", "X"), "");
}

#[test]
fn replace_placeholder_keeps_other_characters() {
    assert_eq!(
        replace_placeholder("é pane command=\"nvim\"pane command=\"nvim\" ü", "→"),
        "é →→ ü"
    );
}

#[test]
fn modify_layout_inserts_editor_pane() {
    let layout = "layout {\n    pane size=1 borderless=true\n    pane command=\"nvim\"\n}\n";
    let got = modify_existing_layout(layout, "nvim", &strings(&["main.rs"]));
    assert_eq!(
        got,
        "layout {\n    pane size=1 borderless=true\n    pane {\n    command \"nvim\"\n    args \"--\" \"main.rs\"\n    focus true\n}\n}\n"
    );
    let bare = modify_existing_layout(layout, "hx", &[]);
    assert_eq!(
        bare,
        "layout {\n    pane size=1 borderless=true\n    pane {\n    command \"hx\"\n    focus true\n}\n}\n"
    );
}

#[test]
fn paths_under_home() {
    assert_eq!(config_path("/home/a"), "/home/a/.config/txr/config.toml");
    assert_eq!(layout_path("/home/a"), "/home/a/.config/zellij/layout.kdl");
    assert_eq!(temp_layout_path("/home/a"), "/home/a/.config/zellij/temp_layout.kdl");
}

#[test]
fn session_name_format() {
    assert_eq!(make_session_name("alice", "box", 1), "alice-box-1");
    assert_eq!(make_session_name("alice", "box", 0), "alice-box-0");
    assert_eq!(make_session_name("bob", "host.lan", 10), "bob-host.lan-10");
    assert_eq!(make_session_name("u", "h", 1203), "u-h-1203");
}

#[test]
fn unique_session_name_with_no_sessions() {
    assert_eq!(unique_session_name("alice", "box", &[]), "alice-box-1");
}

#[test]
fn unique_session_name_skips_taken_names() {
    let existing = strings(&["alice-box-1", "alice-box-2", "other", "alice-box-4"]);
    let name = unique_session_name("alice", "box", &existing);
    assert_eq!(name, "alice-box-3");
    assert!(!existing.contains(&name));
}

#[test]
fn unique_session_name_when_all_low_names_taken() {
    let existing: Vec<String> = (1..=11).rev().map(|n| format!("u-h-{}", n)).collect();
    let name = unique_session_name("u", "h", &existing);
    assert_eq!(name, "u-h-12");
    assert!(!existing.contains(&name));
}

#[test]
fn launch_inside_or_outside_multiplexer() {
    assert_eq!(choose_launch(true, false), Launch::RunEditor);
    assert_eq!(choose_launch(false, true), Launch::RunEditor);
    assert_eq!(choose_launch(true, true), Launch::RunEditor);
    assert_eq!(choose_launch(false, false), Launch::NewSession);
}
