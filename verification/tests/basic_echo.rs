use rustproxy::basic_echo::{config_reply, respond, EchoConfig, EchoServerState};

#[test]
fn echo_config_defaults() {
    let c = EchoConfig::default();
    assert_eq!(c.max_message_size, 1024);
    assert_eq!(c.server_name, "RustProxy");
}

#[test]
fn config_command_shows_settings() {
    let mut c = EchoConfig::default();
    assert_eq!(
        respond(&mut c, "CONFIG\n"),
        "Config: Config { max_message_size: 1024, server_name: \"RustProxy\" }\n"
    );
    assert_eq!(c.max_message_size, 1024);
}

#[test]
fn config_command_escapes_the_name() {
    let mut c = EchoConfig { max_message_size: 7, server_name: "a\"b\n".to_string() };
    assert_eq!(
        respond(&mut c, " CONFIG "),
        "Config: Config { max_message_size: 7, server_name: \"a\\\"b\\n\" }\n"
    );
}

#[test]
fn set_max_changes_the_limit() {
    let mut c = EchoConfig::default();
    assert_eq!(respond(&mut c, "SET_MAX 10\n"), "Updated max_message_size to 10\n");
    assert_eq!(c.max_message_size, 10);
    assert_eq!(respond(&mut c, "SET_MAX +20\n"), "Updated max_message_size to 20\n");
    assert_eq!(c.max_message_size, 20);
    assert_eq!(c.server_name, "RustProxy");
}

#[test]
fn set_max_rejects_non_numbers() {
    let mut c = EchoConfig::default();
    assert_eq!(respond(&mut c, "SET_MAX abc\n"), "Invalid number\n");
    assert_eq!(respond(&mut c, "SET_MAX -1\n"), "Invalid number\n");
    assert_eq!(respond(&mut c, "SET_MAX 1 2\n"), "Invalid number\n");
    assert_eq!(respond(&mut c, "SET_MAX 99999999999999999999999\n"), "Invalid number\n");
    assert_eq!(c.max_message_size, 1024);
}

#[test]
fn long_lines_are_refused() {
    let mut c = EchoConfig::default();
    respond(&mut c, "SET_MAX 5\n");
    assert_eq!(respond(&mut c, "123456\n"), "Message too long (max: 5)");
    assert_eq!(respond(&mut c, "1234"), "1234");
}

#[test]
fn lines_are_echoed() {
    let mut c = EchoConfig::default();
    assert_eq!(respond(&mut c, "Hello from connection 7\n"), "Hello from connection 7\n");
    assert_eq!(respond(&mut c, ""), "");
}

#[test]
fn server_state_counts() {
    let mut s = EchoServerState::new();
    assert_eq!(s.connection_started(), (1, 1));
    assert_eq!(s.connection_started(), (2, 2));
    assert_eq!(s.connection_ended(), 1);
    assert_eq!(s.connection_started(), (2, 3));
}

#[test]
fn config_reply_text() {
    assert_eq!(
        config_reply(42, "\"x\""),
        "Config: Config { max_message_size: 42, server_name: \"x\" }\n"
    );
}
