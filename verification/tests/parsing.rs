use traycmd::config::{parse_args, TrayConfig};

fn args(list: &[&str]) -> Vec<String> {
    list.iter().map(|s| s.to_string()).collect()
}

#[test]
fn no_flags_yields_empty_config() {
    let c = parse_args(&args(&["traycmd"]));
    assert_eq!(
        c,
        TrayConfig {
            primary_command: None,
            secondary_command: None,
            use_colour: false,
            label: None,
            tooltip: None,
        }
    );
}

#[test]
fn empty_argument_list_yields_empty_config() {
    let c = parse_args(&args(&[]));
    assert_eq!(c.primary_command, None);
    assert_eq!(c.secondary_command, None);
}

#[test]
fn left_click_flag_sets_primary_command() {
    let c = parse_args(&args(&["traycmd", "--on-left-click", "open /tmp"]));
    assert_eq!(c.primary_command, Some("open /tmp".to_string()));
    assert_eq!(c.secondary_command, None);
    assert!(!c.use_colour);
}

#[test]
fn right_click_flag_sets_secondary_command() {
    let c = parse_args(&args(&["traycmd", "--on-right-click", "echo R"]));
    assert_eq!(c.secondary_command, Some("echo R".to_string()));
    assert_eq!(c.primary_command, None);
}

#[test]
fn all_flags_together() {
    let c = parse_args(&args(&[
        "traycmd",
        "--on-left-click",
        "echo L",
        "--on-right-click",
        "echo R",
        "--use-colour",
        "--text",
        "hello",
        "--tooltip",
        "a tip",
    ]));
    assert_eq!(c.primary_command, Some("echo L".to_string()));
    assert_eq!(c.secondary_command, Some("echo R".to_string()));
    assert!(c.use_colour);
    assert_eq!(c.label, Some("hello".to_string()));
    assert_eq!(c.tooltip, Some("a tip".to_string()));
}

#[test]
fn flag_without_value_at_end_is_ignored() {
    let c = parse_args(&args(&["traycmd", "--on-left-click"]));
    assert_eq!(c.primary_command, None);
    let c = parse_args(&args(&["traycmd", "--text"]));
    assert_eq!(c.label, None);
}

#[test]
fn unknown_arguments_are_skipped() {
    let c = parse_args(&args(&["traycmd", "stray", "--on-left-click", "echo L", "-x"]));
    assert_eq!(c.primary_command, Some("echo L".to_string()));
    assert_eq!(c.secondary_command, None);
}

#[test]
fn later_occurrence_of_a_flag_wins() {
    let c = parse_args(&args(&[
        "traycmd",
        "--on-left-click",
        "first",
        "--on-left-click",
        "second",
    ]));
    assert_eq!(c.primary_command, Some("second".to_string()));
}

#[test]
fn flag_value_is_taken_verbatim() {
    let c = parse_args(&args(&["traycmd", "--on-left-click", "--use-colour"]));
    // The value position is consumed blindly, even if it looks like a flag.
    assert_eq!(c.primary_command, Some("--use-colour".to_string()));
    assert!(!c.use_colour);
}

#[test]
fn program_name_position_is_never_a_flag() {
    let c = parse_args(&args(&["--use-colour"]));
    assert!(!c.use_colour);
}
