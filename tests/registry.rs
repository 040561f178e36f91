use crun::host::{config_path, Action, Event};
use crun::registry::{ConfigError, Registry};

const TWO: &str = r#"[{"name":"A","bin":"/bin/true","args":[]},{"name":"B","bin":"/bin/false","args":["x"]}]"#;

fn load_str(text: &str) -> Result<Registry, ConfigError> {
    Registry::load(Some(text.as_bytes()))
}

#[test]
fn two_entry_round_trip() {
    let reg = load_str(TWO).unwrap();
    assert_eq!(reg.count(), 2);
    assert_eq!(reg.label(0), "A");
    assert_eq!(reg.label(1), "B");
}

#[test]
fn records_keep_file_order_and_fields() {
    let text = r#"[
      { "name": "Terminal", "bin": "/usr/bin/alacritty", "args": [] },
      { "name": "Editor",   "bin": "/usr/bin/nvim", "args": ["--listen", "/tmp/nvim.sock"] },
      { "name": "Editor",   "bin": "nvim", "args": ["-R"] }
    ]"#;
    let reg = load_str(text).unwrap();
    assert_eq!(reg.count(), 3);
    assert_eq!(reg.label(0), "Terminal");
    assert_eq!(reg.label(1), "Editor");
    assert_eq!(reg.label(2), "Editor");
    let e = reg.entry(1).unwrap();
    assert_eq!(e.name(), "Editor");
    assert_eq!(e.bin(), "/usr/bin/nvim");
    assert_eq!(e.args(), &["--listen".to_string(), "/tmp/nvim.sock".to_string()][..]);
    assert_eq!(reg.entry(2).unwrap().bin(), "nvim");
    assert!(reg.entry(0).unwrap().args().is_empty());
    assert!(reg.entry(3).is_none());
}

#[test]
fn empty_array_loads_no_entries() {
    let reg = load_str("[]").unwrap();
    assert_eq!(reg.count(), 0);
    assert!(!reg.matches(0, ""));
    assert!(reg.launch(0).is_none());
}

#[test]
fn extra_members_are_ignored() {
    let reg = load_str(r#"[{"name":"A","bin":"a","args":["1"],"icon":"x"}]"#).unwrap();
    assert_eq!(reg.count(), 1);
    assert_eq!(reg.entry(0).unwrap().args(), &["1".to_string()][..]);
}

#[test]
fn missing_file_is_not_found() {
    assert!(matches!(Registry::load(None), Err(ConfigError::NotFound)));
}

#[test]
fn missing_bin_is_malformed() {
    let text = r#"[{"name":"A","bin":"/bin/true","args":[]},{"name":"B","args":["x"]}]"#;
    assert!(matches!(load_str(text), Err(ConfigError::Malformed)));
}

#[test]
fn missing_name_or_args_is_malformed() {
    assert!(matches!(load_str(r#"[{"bin":"a","args":[]}]"#), Err(ConfigError::Malformed)));
    assert!(matches!(load_str(r#"[{"name":"A","bin":"a"}]"#), Err(ConfigError::Malformed)));
}

#[test]
fn wrong_types_are_malformed() {
    assert!(matches!(load_str(r#"[{"name":1,"bin":"a","args":[]}]"#), Err(ConfigError::Malformed)));
    assert!(matches!(load_str(r#"[{"name":"A","bin":"a","args":"x"}]"#), Err(ConfigError::Malformed)));
    assert!(matches!(load_str(r#"[{"name":"A","bin":"a","args":["x",2]}]"#), Err(ConfigError::Malformed)));
    assert!(matches!(load_str(r#"["A"]"#), Err(ConfigError::Malformed)));
}

#[test]
fn non_array_document_is_malformed() {
    assert!(matches!(load_str(r#"{"name":"A","bin":"a","args":[]}"#), Err(ConfigError::Malformed)));
}

#[test]
fn invalid_json_is_malformed() {
    assert!(matches!(load_str(r#"[{"name":"A","#), Err(ConfigError::Malformed)));
    assert!(matches!(load_str(""), Err(ConfigError::Malformed)));
    assert!(matches!(Registry::load(Some(&[0xff, 0xfe][..])), Err(ConfigError::Malformed)));
}

#[test]
fn empty_query_matches_every_entry() {
    let reg = load_str(TWO).unwrap();
    assert!(reg.matches(0, ""));
    assert!(reg.matches(1, ""));
}

#[test]
fn substring_query_matches() {
    let reg = load_str(r#"[{"name":"Firefox Nightly","bin":"firefox","args":[]}]"#).unwrap();
    assert!(reg.matches(0, "Firefox Nightly"));
    assert!(reg.matches(0, "fox Ni"));
    assert!(reg.matches(0, "y"));
    assert!(reg.matches(0, "F"));
}

#[test]
fn non_substring_query_does_not_match() {
    let reg = load_str(r#"[{"name":"Firefox","bin":"firefox","args":[]}]"#).unwrap();
    assert!(!reg.matches(0, "firefox"));
    assert!(!reg.matches(0, "Fx"));
    assert!(!reg.matches(0, "Firefox!"));
}

#[test]
fn matching_works_on_characters() {
    let reg = load_str(r#"[{"name":"Éditeur ñ","bin":"ed","args":[]}]"#).unwrap();
    assert!(reg.matches(0, "diteur ñ"));
    assert!(reg.matches(0, "É"));
    assert!(!reg.matches(0, "E"));
}

#[test]
fn out_of_range_matches_is_false() {
    let reg = load_str(TWO).unwrap();
    assert!(!reg.matches(2, ""));
    assert!(!reg.matches(usize::MAX, "A"));
}

#[test]
fn out_of_range_launch_is_no_op() {
    let reg = load_str(TWO).unwrap();
    assert!(reg.launch(reg.count()).is_none());
    assert_eq!(reg.count(), 2);
    assert_eq!(reg.label(1), "B");
}

#[test]
fn launch_hands_out_the_configured_command() {
    let reg = load_str(TWO).unwrap();
    let e = reg.launch(1).unwrap();
    assert_eq!(e.bin(), "/bin/false");
    assert_eq!(e.args(), &["x".to_string()][..]);
    assert_eq!(reg.count(), 2);
    assert_eq!(reg.label(0), "A");
}

#[test]
fn cancel_exits() {
    let reg = load_str(TWO).unwrap();
    let mut input = String::from("q");
    assert!(matches!(reg.react(Event::Cancel, &mut input), Action::Exit));
    assert_eq!(input, "q");
}

#[test]
fn confirm_launches_selected_entry() {
    let reg = load_str(TWO).unwrap();
    let mut input = String::from("q");
    match reg.react(Event::Confirm { selected: 0 }, &mut input) {
        Action::Launch(e) => {
            assert_eq!(e.bin(), "/bin/true");
            assert!(e.args().is_empty());
        }
        _ => panic!("expected a launch"),
    }
    assert_eq!(input, "q");
}

#[test]
fn confirm_out_of_range_reloads() {
    let reg = load_str(TWO).unwrap();
    let mut input = String::from("q");
    assert!(matches!(reg.react(Event::Confirm { selected: 2 }, &mut input), Action::Reload));
    assert_eq!(input, "q");
}

#[test]
fn complete_replaces_input_with_label() {
    let reg = load_str(TWO).unwrap();
    let mut input = String::from("q");
    assert!(matches!(reg.react(Event::Complete { selected: Some(1) }, &mut input), Action::Reload));
    assert_eq!(input, "B");
}

#[test]
fn other_events_reload_unchanged() {
    let reg = load_str(TWO).unwrap();
    let mut input = String::from("q");
    assert!(matches!(reg.react(Event::Complete { selected: None }, &mut input), Action::Reload));
    assert!(matches!(reg.react(Event::Other, &mut input), Action::Reload));
    assert_eq!(input, "q");
}

#[test]
fn config_path_under_home() {
    assert_eq!(config_path("/home/u"), "/home/u/.config/rofi/crun.json");
    assert_eq!(config_path(""), "/.config/rofi/crun.json");
}
