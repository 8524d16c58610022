use rustproxy::config::Config;
use rustproxy::echo::{
    count_sent, echo_step, EchoReply,
    classify_line, goodbye_reply, invalid_number_reply, json_reply, text_reply, too_large_reply,
    updated_reply, LineCommand,
};
use rustproxy::metrics::{Metrics, MetricsSnapshot};

#[test]
fn default_config_values() {
    let c = Config::default();
    assert_eq!(c.max_message_size, 4096);
    assert_eq!(c.drain_timeout_secs, 5);
    assert_eq!(c.idle_timeout_secs, 60);
}

#[test]
fn metrics_start_at_zero() {
    let m = Metrics::new();
    assert_eq!(
        m.snapshot(),
        MetricsSnapshot { active_connections: 0, total_connections: 0, bytes_received: 0, bytes_sent: 0 }
    );
}

#[test]
fn metrics_count_connections() {
    let mut m = Metrics::new();
    assert_eq!(m.connection_started(), (1, 1));
    assert_eq!(m.connection_started(), (2, 2));
    assert_eq!(m.connection_ended(), (1, 2));
    assert_eq!(m.active_connections(), 1);
    assert_eq!(m.total_connections(), 2);
}

#[test]
fn metrics_open_then_close_restores_active() {
    let mut m = Metrics::new();
    m.connection_started();
    let before = m.snapshot();
    m.connection_started();
    m.connection_ended();
    let after = m.snapshot();
    assert_eq!(after.active_connections, before.active_connections);
    assert_eq!(after.total_connections, before.total_connections + 1);
}

#[test]
fn metrics_count_bytes() {
    let mut m = Metrics::new();
    assert_eq!(m.record_bytes_received(10), 10);
    assert_eq!(m.record_bytes_received(5), 15);
    assert_eq!(m.record_bytes_sent(7), 7);
    assert_eq!(m.bytes_received(), 15);
    assert_eq!(m.bytes_sent(), 7);
    let s = m.snapshot();
    assert_eq!(s.bytes_received, 15);
    assert_eq!(s.bytes_sent, 7);
    assert_eq!(s.active_connections, 0);
}

#[test]
fn empty_read_disconnects() {
    assert_eq!(classify_line("", 4096), LineCommand::Disconnect);
}

#[test]
fn plain_line_is_echoed() {
    assert_eq!(classify_line("hello world\n", 4096), LineCommand::Echo);
    assert_eq!(classify_line("STATSX\n", 4096), LineCommand::Echo);
}

#[test]
fn commands_are_recognised_after_trimming() {
    assert_eq!(classify_line("STATS\n", 4096), LineCommand::Stats);
    assert_eq!(classify_line("  STATS \r\n", 4096), LineCommand::Stats);
    assert_eq!(classify_line("\u{3000}CONFIG\n", 4096), LineCommand::Config);
    assert_eq!(classify_line("CONFIG", 4096), LineCommand::Config);
}

#[test]
fn set_max_lines_are_echoed() {
    assert_eq!(classify_line("SET_MAX 10\n", 4096), LineCommand::Echo);
    assert_eq!(classify_line("SET_MAX \n", 4096), LineCommand::Echo);
}

#[test]
fn size_limit_counts_bytes_and_comes_first() {
    assert_eq!(classify_line("STATS\n", 5), LineCommand::TooLarge);
    assert_eq!(classify_line("STATS\n", 6), LineCommand::Stats);
    // three characters, six bytes
    assert_eq!(classify_line("ééé", 5), LineCommand::TooLarge);
    assert_eq!(classify_line("ééé", 6), LineCommand::Echo);
}

#[test]
fn reply_texts() {
    assert_eq!(too_large_reply(4096), "Message too large (max 4096 bytes)\n");
    assert_eq!(too_large_reply(0), "Message too large (max 0 bytes)\n");
    assert_eq!(updated_reply(1234567), "Updated max_message_size to 1234567\n");
    assert_eq!(invalid_number_reply(), "Invalid number\n");
    assert_eq!(goodbye_reply(), "Server shutting down, goodbye!\n");
    assert_eq!(json_reply("{\"a\": 1}"), "{\"a\": 1}\n");
}

#[test]
fn text_replies_per_command() {
    let line = "ping\n";
    assert_eq!(text_reply(classify_line(line, 4096), line, 4096), Some("ping\n".to_string()));
    assert_eq!(
        text_reply(classify_line(line, 3), line, 3),
        Some("Message too large (max 3 bytes)\n".to_string())
    );
    assert_eq!(text_reply(LineCommand::SetMax(9), line, 4096), Some("Updated max_message_size to 9\n".to_string()));
    assert_eq!(text_reply(LineCommand::InvalidNumber, line, 4096), Some("Invalid number\n".to_string()));
    assert_eq!(text_reply(LineCommand::Stats, line, 4096), None);
    assert_eq!(text_reply(LineCommand::Config, line, 4096), None);
    assert_eq!(text_reply(LineCommand::Disconnect, "", 4096), None);
}

#[test]
fn echo_step_counts_and_replies() {
    let mut m = Metrics::new();
    let mut c = Config::default();
    match echo_step(&mut m, &mut c, "hello\n") {
        EchoReply::Text(t) => assert_eq!(t, "hello\n"),
        other => panic!("unexpected {:?}", other),
    }
    assert_eq!(m.bytes_received(), 6);
    assert_eq!(count_sent(&mut m, "hello\n"), 6);
    match echo_step(&mut m, &mut c, "STATS\n") {
        EchoReply::Stats(s) => {
            assert_eq!(s.bytes_received, 12);
            assert_eq!(s.bytes_sent, 6);
        }
        other => panic!("unexpected {:?}", other),
    }
    match echo_step(&mut m, &mut c, " CONFIG\n") {
        EchoReply::Settings(s) => assert_eq!(s, Config::default()),
        other => panic!("unexpected {:?}", other),
    }
    assert_eq!(count_sent(&mut m, "é"), 8);
}

#[test]
fn echo_step_close_and_limit() {
    let mut m = Metrics::new();
    let mut c = Config { max_message_size: 3, drain_timeout_secs: 5, idle_timeout_secs: 60 };
    assert!(matches!(echo_step(&mut m, &mut c, ""), EchoReply::Close));
    assert_eq!(m.bytes_received(), 0);
    match echo_step(&mut m, &mut c, "abcd") {
        EchoReply::Text(t) => assert_eq!(t, "Message too large (max 3 bytes)\n"),
        other => panic!("unexpected {:?}", other),
    }
    assert_eq!(m.bytes_received(), 4);
    match echo_step(&mut m, &mut c, "SET_MAX 9\n") {
        EchoReply::Text(t) => assert_eq!(t, "Message too large (max 3 bytes)\n"),
        other => panic!("unexpected {:?}", other),
    }
    assert_eq!(c.max_message_size, 3);
}

#[test]
fn metrics_over_a_series() {
    let mut m = Metrics::new();
    let mut sum = 0;
    for i in 0..10usize {
        m.connection_started();
        m.record_bytes_received(i);
        sum += i;
        if i % 3 == 0 {
            m.connection_ended();
        }
    }
    assert_eq!(m.total_connections(), 10);
    assert_eq!(m.active_connections(), 10 - 4);
    assert_eq!(m.bytes_received(), sum);
    assert_eq!(m.bytes_sent(), 0);
}
