use mavlink_camera_manager::cli::manager::{
    command_line_string, init, is_verbose, mavlink_connection_string, or_default, server_address,
};

fn command_line(words: &[&str]) -> Vec<String> {
    words.iter().map(|word| word.to_string()).collect()
}

#[test]
fn default_arguments() {
    let manager = init(&command_line(&["mavlink-camera-manager"])).unwrap();
    assert_eq!(is_verbose(&manager), false);
    assert_eq!(mavlink_connection_string(&manager), "udpout:0.0.0.0:14550");
}

#[test]
fn default_server_address() {
    let manager = init(&command_line(&["mavlink-camera-manager"])).unwrap();
    assert_eq!(server_address(&manager), "0.0.0.0:6020");
}

#[test]
fn empty_command_line_gives_the_defaults() {
    let manager = init(&Vec::new()).unwrap();
    assert_eq!(is_verbose(&manager), false);
    assert_eq!(mavlink_connection_string(&manager), "udpout:0.0.0.0:14550");
    assert_eq!(server_address(&manager), "0.0.0.0:6020");
}

#[test]
fn given_options_replace_the_defaults() {
    let manager = init(&command_line(&[
        "mavlink-camera-manager",
        "--mavlink",
        "tcpout:192.168.2.1:5760",
        "--rest-server=127.0.0.1:8088",
        "--verbose",
    ]))
    .unwrap();
    assert_eq!(is_verbose(&manager), true);
    assert_eq!(mavlink_connection_string(&manager), "tcpout:192.168.2.1:5760");
    assert_eq!(server_address(&manager), "127.0.0.1:8088");
}

#[test]
fn short_verbose_flag() {
    let manager = init(&command_line(&["mavlink-camera-manager", "-v"])).unwrap();
    assert_eq!(is_verbose(&manager), true);
    assert_eq!(mavlink_connection_string(&manager), "udpout:0.0.0.0:14550");
}

#[test]
fn unknown_option_is_a_misuse() {
    let error = init(&command_line(&["mavlink-camera-manager", "--no-such-option"])).unwrap_err();
    assert!(error.misuse);
    assert!(!error.message.is_empty());
}

#[test]
fn option_without_a_value_keeps_the_default() {
    let manager = init(&command_line(&["mavlink-camera-manager", "--mavlink"])).unwrap();
    assert_eq!(mavlink_connection_string(&manager), "udpout:0.0.0.0:14550");
}

#[test]
fn unexpected_word_is_a_misuse() {
    let error = init(&command_line(&["mavlink-camera-manager", "stray"])).unwrap_err();
    assert!(error.misuse);
}

#[test]
fn help_is_no_misuse() {
    let error = init(&command_line(&["mavlink-camera-manager", "--help"])).unwrap_err();
    assert!(!error.misuse);
    assert!(error.message.contains("--mavlink"));
    assert!(error.message.contains("--rest-server"));
    assert!(error.message.contains("--verbose"));
    assert!(error.message.contains("udpout:0.0.0.0:14550"));
}

#[test]
fn version_is_no_misuse() {
    let error = init(&command_line(&["mavlink-camera-manager", "--version"])).unwrap_err();
    assert!(!error.misuse);
}

#[test]
fn same_command_line_same_options() {
    let words = command_line(&["mavlink-camera-manager", "--mavlink", "udpin:0.0.0.0:14551"]);
    let first = init(&words).unwrap();
    let second = init(&words).unwrap();
    assert_eq!(is_verbose(&first), is_verbose(&second));
    assert_eq!(mavlink_connection_string(&first), mavlink_connection_string(&second));
    assert_eq!(server_address(&first), server_address(&second));
}

#[test]
fn matches_hold_what_the_options_hold() {
    let manager = init(&command_line(&["mavlink-camera-manager", "-v", "--mavlink", "a:b:1"])).unwrap();
    let copy = mavlink_camera_manager::cli::manager::matches(&manager);
    assert!(copy.is_present("verbose"));
    assert_eq!(copy.value_of("mavlink"), Some("a:b:1"));
    assert_eq!(copy.value_of("rest-server"), Some("0.0.0.0:6020"));
}

#[test]
fn or_default_keeps_a_given_value() {
    assert_eq!(or_default(Some("given"), "fallback"), "given");
    assert_eq!(or_default(None, "fallback"), "fallback");
}

#[test]
fn command_line_string_joins_with_spaces() {
    assert_eq!(
        command_line_string(&command_line(&["prog", "--mavlink", "udpout:0.0.0.0:14550", "-v"])),
        "prog --mavlink udpout:0.0.0.0:14550 -v"
    );
    assert_eq!(command_line_string(&command_line(&["prog"])), "prog");
    assert_eq!(command_line_string(&Vec::new()), "");
}
