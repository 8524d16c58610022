//! The line protocol of the echo server: what each received line asks for,
//! and the text of the replies.
use vstd::prelude::*;
use vstd::slice::slice_subrange;
use vstd::utf8::encode_utf8;
use crate::config::Config;
use crate::metrics::{received, sent, Metrics, MetricsSnapshot};
use crate::text::{
    chars_eq, chars_of, decimal, lemma_trim_edges, parse_usize, parse_usize_chars, push_decimal,
    push_str, string_from_chars, trim, trim_chars, is_ws,
};

verus! {

broadcast use vstd::string::group_string_axioms;

/// What the server does with one line read from a client.
#[derive(Debug, Clone, Copy, PartialEq, Eq, Structural)]
pub enum LineCommand {
    /// Nothing was read: the client closed the connection.
    Disconnect,
    /// The line is longer than the configured limit.
    TooLarge,
    /// Send the counters as JSON.
    Stats,
    /// Send the settings as JSON.
    Config,
    /// Set the largest accepted line to the given size.
    SetMax(usize),
    /// A size was asked for that is not a number.
    InvalidNumber,
    /// Send the line back unchanged.
    Echo,
}

/// The command a line stands for, given the current line-size limit.
/// Limits are measured in UTF-8 bytes and checked before commands; commands
/// are matched on the line without surrounding whitespace.
pub open spec fn line_command(line: Seq<char>, max_message_size: usize) -> LineCommand {
    let len = encode_utf8(line).len();
    let t = trim(line);
    if len == 0 {
        LineCommand::Disconnect
    } else if len > max_message_size {
        LineCommand::TooLarge
    } else if t == "STATS"@ {
        LineCommand::Stats
    } else if t == "CONFIG"@ {
        LineCommand::Config
    } else if t == "SET_MAX "@ {
        match parse_usize(t.skip(8)) {
            Some(n) => LineCommand::SetMax(n),
            None => LineCommand::InvalidNumber,
        }
    } else {
        LineCommand::Echo
    }
}

/// Decides what to do with `line`.
pub fn classify_line(line: &str, max_message_size: usize) -> (c: LineCommand)
    ensures
        c == line_command(line@, max_message_size),
{
    let len = line.as_bytes().len();
    if len == 0 {
        return LineCommand::Disconnect;
    }
    if len > max_message_size {
        return LineCommand::TooLarge;
    }
    let all = chars_of(line);
    let t = trim_chars(all.as_slice());
    if chars_eq(t.as_slice(), chars_of("STATS").as_slice()) {
        LineCommand::Stats
    } else if chars_eq(t.as_slice(), chars_of("CONFIG").as_slice()) {
        LineCommand::Config
    } else if chars_eq(t.as_slice(), chars_of("SET_MAX ").as_slice()) {
        proof {
            reveal_strlit("SET_MAX ");
        }
        let rest = slice_subrange(t.as_slice(), 8, t.len());
        assert(rest@ == t@.skip(8));
        match parse_usize_chars(rest) {
            Some(n) => LineCommand::SetMax(n),
            None => LineCommand::InvalidNumber,
        }
    } else {
        LineCommand::Echo
    }
}

/// The reply to a line over the size limit.
pub open spec fn too_large_text(max_message_size: usize) -> Seq<char> {
    "Message too large (max "@ + decimal(max_message_size as nat) + " bytes)\n"@
}

/// The reply to a successful size change.
pub open spec fn updated_text(new_size: usize) -> Seq<char> {
    "Updated max_message_size to "@ + decimal(new_size as nat) + "\n"@
}

/// Reply to a line longer than `max_message_size` bytes.
pub fn too_large_reply(max_message_size: usize) -> (s: String)
    ensures
        s@ == too_large_text(max_message_size),
{
    let mut out: Vec<char> = Vec::new();
    push_str(&mut out, "Message too large (max ");
    push_decimal(&mut out, max_message_size as u64);
    push_str(&mut out, " bytes)\n");
    string_from_chars(out.as_slice())
}

/// Reply to a size change to `new_size`.
pub fn updated_reply(new_size: usize) -> (s: String)
    ensures
        s@ == updated_text(new_size),
{
    let mut out: Vec<char> = Vec::new();
    push_str(&mut out, "Updated max_message_size to ");
    push_decimal(&mut out, new_size as u64);
    push_str(&mut out, "\n");
    string_from_chars(out.as_slice())
}

/// Reply to a size change that is not a number.
pub fn invalid_number_reply() -> (s: String)
    ensures
        s@ == "Invalid number\n"@,
{
    "Invalid number\n".to_owned()
}

/// Sent to every client when the server shuts down.
pub fn goodbye_reply() -> (s: String)
    ensures
        s@ == "Server shutting down, goodbye!\n"@,
{
    "Server shutting down, goodbye!\n".to_owned()
}

/// A JSON document sent as one reply: the document and a line break.
pub fn json_reply(json: &str) -> (s: String)
    ensures
        s@ == json@ + "\n"@,
{
    let mut out = chars_of(json);
    push_str(&mut out, "\n");
    string_from_chars(out.as_slice())
}

/// The text sent for a command, given the line and the size limit it was
/// decided with; none where the reply is a JSON document (the counters or
/// the settings) or the connection ends.
pub open spec fn reply_text(command: LineCommand, line: Seq<char>, max_message_size: usize) -> Option<
    Seq<char>,
> {
    match command {
        LineCommand::TooLarge => Some(too_large_text(max_message_size)),
        LineCommand::SetMax(n) => Some(updated_text(n)),
        LineCommand::InvalidNumber => Some("Invalid number\n"@),
        LineCommand::Echo => Some(line),
        _ => None,
    }
}

/// The text to send for `command`, decided on `line` with the limit
/// `max_message_size`; `None` for the counters, the settings and a closed
/// connection.
pub fn text_reply(command: LineCommand, line: &str, max_message_size: usize) -> (r: Option<String>)
    ensures
        r matches Some(s) ==> reply_text(command, line@, max_message_size) == Some(s@),
        r is None ==> reply_text(command, line@, max_message_size) is None,
{
    match command {
        LineCommand::TooLarge => Some(too_large_reply(max_message_size)),
        LineCommand::SetMax(n) => Some(updated_reply(n)),
        LineCommand::InvalidNumber => Some(invalid_number_reply()),
        LineCommand::Echo => Some(line.to_owned()),
        _ => None,
    }
}

/// What a session sends for one line, once the step is taken.
#[derive(Debug)]
pub enum EchoReply {
    /// The client closed the connection: send nothing.
    Close,
    /// Send this text.
    Text(String),
    /// Send these counters as a JSON document (see `json_reply`).
    Stats(MetricsSnapshot),
    /// Send these settings as a JSON document (see `json_reply`).
    Settings(Config),
}

/// One step of an echo session on a line read from the client: unless the
/// client closed the connection, the line's bytes are counted as received,
/// a size change is applied, and the reply is chosen. The counters sent
/// for `Stats` are those after counting the line.
pub fn echo_step(metrics: &mut Metrics, config: &mut Config, line: &str) -> (r: EchoReply)
    requires
        old(metrics)@.bytes_received + encode_utf8(line@).len() <= usize::MAX,
    ensures
        ({
            let cmd = line_command(line@, old(config).max_message_size);
            &&& cmd == LineCommand::Disconnect ==> (r is Close && final(metrics)@ == old(metrics)@)
            &&& cmd != LineCommand::Disconnect ==> final(metrics)@ == received(
                old(metrics)@,
                encode_utf8(line@).len() as usize,
            )
            &&& cmd matches LineCommand::SetMax(n) ==> *final(config) == Config {
                max_message_size: n,
                ..*old(config)
            }
            &&& !(cmd is SetMax) ==> *final(config) == *old(config)
            &&& cmd == LineCommand::Stats ==> (r matches EchoReply::Stats(snap) && snap
                == final(metrics)@)
            &&& cmd == LineCommand::Config ==> (r matches EchoReply::Settings(c) && c
                == *final(config))
            &&& reply_text(cmd, line@, old(config).max_message_size) matches Some(t) ==> (
            r matches EchoReply::Text(text) && text@ == t)
        }),
{
    let max_size = config.max_message_size;
    let cmd = classify_line(line, max_size);
    if cmd == LineCommand::Disconnect {
        return EchoReply::Close;
    }
    metrics.record_bytes_received(line.as_bytes().len());
    if let LineCommand::SetMax(n) = cmd {
        config.max_message_size = n;
    }
    match text_reply(cmd, line, max_size) {
        Some(text) => EchoReply::Text(text),
        None => if cmd == LineCommand::Stats {
            EchoReply::Stats(metrics.snapshot())
        } else {
            EchoReply::Settings(*config)
        },
    }
}

/// Counts a reply as sent once it was written: its length in UTF-8 bytes.
pub fn count_sent(metrics: &mut Metrics, reply: &str) -> (total: usize)
    requires
        old(metrics)@.bytes_sent + encode_utf8(reply@).len() <= usize::MAX,
    ensures
        final(metrics)@ == sent(old(metrics)@, encode_utf8(reply@).len() as usize),
        total == final(metrics)@.bytes_sent,
{
    metrics.record_bytes_sent(reply.as_bytes().len())
}

/// A non-empty line within the size limit that is no command is sent back
/// unchanged.
pub proof fn law_plain_line_echoed(line: Seq<char>, max_message_size: usize)
    requires
        0 < encode_utf8(line).len() <= max_message_size,
        trim(line) != "STATS"@,
        trim(line) != "CONFIG"@,
    ensures
        line_command(line, max_message_size) == LineCommand::Echo,
        reply_text(line_command(line, max_message_size), line, max_message_size) == Some(line),
{
    law_set_max_never_selected(line, max_message_size);
}

/// No line ever selects the size-change command: a line without its
/// surrounding whitespace never ends in the space that the command text
/// ends in, so `SET_MAX` lines are echoed like any other line.
pub proof fn law_set_max_never_selected(line: Seq<char>, max_message_size: usize)
    ensures
        trim(line) != "SET_MAX "@,
        !(line_command(line, max_message_size) is SetMax),
        line_command(line, max_message_size) != LineCommand::InvalidNumber,
{
    reveal_strlit("SET_MAX ");
    lemma_trim_edges(line);
    assert(is_ws("SET_MAX "@.last()));
}

/// A line within the limit whose text, without the whitespace around it
/// (spaces, tabs, a carriage return and line feed, ...), is `STATS` asks
/// for the counters, and one that is `CONFIG` for the settings.
pub proof fn law_commands_recognised(line: Seq<char>, max_message_size: usize)
    requires
        0 < encode_utf8(line).len() <= max_message_size,
    ensures
        trim(line) == "STATS"@ ==> line_command(line, max_message_size) == LineCommand::Stats,
        trim(line) == "CONFIG"@ ==> line_command(line, max_message_size) == LineCommand::Config,
        trim(line) == "CONFIG"@ ==> reply_text(line_command(line, max_message_size), line, max_message_size) is None,
{
    reveal_strlit("STATS");
    reveal_strlit("CONFIG");
    assert("STATS"@.len() != "CONFIG"@.len());
}

/// A line over the size limit is refused whatever it says.
pub proof fn law_size_checked_first(line: Seq<char>, max_message_size: usize)
    requires
        encode_utf8(line).len() > max_message_size,
    ensures
        line_command(line, max_message_size) == LineCommand::TooLarge,
{
}

} // verus!
