//! The first asynchronous echo server: a per-line protocol with a size
//! limit that clients can read and change, and connection counters.
use vstd::prelude::*;
use vstd::slice::slice_subrange;
use vstd::utf8::encode_utf8;
use crate::text::{
    chars_eq, chars_of, decimal, parse_usize, parse_usize_chars, push_decimal, push_str,
    starts_with_chars, string_from_chars, trim, trim_chars,
};

verus! {

broadcast use vstd::string::group_string_axioms;

/// Settings shared by all connections of the server.
#[derive(Debug, Clone)]
pub struct EchoConfig {
    /// Longest line, in bytes, that is echoed back.
    pub max_message_size: usize,
    /// Name the server announces.
    pub server_name: String,
}

impl Default for EchoConfig {
    fn default() -> (c: Self)
        ensures
            c.max_message_size == 1024,
            c.server_name@ == "RustProxy"@,
    {
        EchoConfig { max_message_size: 1024, server_name: "RustProxy".to_owned() }
    }
}

/// How `{:?}` writes a string: quoted, with special characters escaped.
pub uninterp spec fn debug_quoted(s: Seq<char>) -> Seq<char>;

/// Formats `s` with `{:?}` (`<str as Debug>::fmt`). Claimed: the result is
/// the name above applied to the text of `s`; what the escaping does is
/// left unsaid.
#[verifier::external_body]
fn debug_string(s: &str) -> (r: String)
    ensures
        r@ == debug_quoted(s@),
{
    format!("{:?}", s)
}

/// The reply to `CONFIG`: the settings as `{:?}` shows them.
pub open spec fn config_text(max_message_size: usize, server_name: Seq<char>) -> Seq<char> {
    "Config: Config { max_message_size: "@ + decimal(max_message_size as nat) + ", server_name: "@
        + debug_quoted(server_name) + " }\n"@
}

/// The reply to `CONFIG` for the size limit `max_message_size` and the
/// server name already written as `{:?}` writes it (`quoted_name`).
pub fn config_reply(max_message_size: usize, quoted_name: &str) -> (s: String)
    ensures
        s@ == "Config: Config { max_message_size: "@ + decimal(max_message_size as nat)
            + ", server_name: "@ + quoted_name@ + " }\n"@,
{
    let mut out = chars_of("Config: Config { max_message_size: ");
    push_decimal(&mut out, max_message_size as u64);
    push_str(&mut out, ", server_name: ");
    push_str(&mut out, quoted_name);
    push_str(&mut out, " }\n");
    string_from_chars(out.as_slice())
}

/// What a reply to `line` is and what the size limit becomes, given the
/// current limit and server name.
pub open spec fn reply_to(line: Seq<char>, max_message_size: usize, server_name: Seq<char>) -> (
    Seq<char>,
    usize,
) {
    let t = trim(line);
    if t == "CONFIG"@ {
        (config_text(max_message_size, server_name), max_message_size)
    } else if t.len() >= 8 && t.take(8) == "SET_MAX "@ {
        match parse_usize(t.skip(8)) {
            Some(n) => ("Updated max_message_size to "@ + decimal(n as nat) + "\n"@, n),
            None => ("Invalid number\n"@, max_message_size),
        }
    } else if encode_utf8(line).len() > max_message_size {
        ("Message too long (max: "@ + decimal(max_message_size as nat) + ")"@, max_message_size)
    } else {
        (line, max_message_size)
    }
}

/// Answers one line read from a client, updating the size limit when the
/// line asks for it, and returns the text to send back.
pub fn respond(config: &mut EchoConfig, line: &str) -> (reply: String)
    ensures
        (reply@, final(config).max_message_size) == reply_to(
            line@,
            old(config).max_message_size,
            old(config).server_name@,
        ),
        final(config).server_name@ == old(config).server_name@,
{
    proof {
        reveal_strlit("SET_MAX ");
    }
    let all = chars_of(line);
    let t = trim_chars(all.as_slice());
    let set_max = chars_of("SET_MAX ");
    if chars_eq(t.as_slice(), chars_of("CONFIG").as_slice()) {
        let quoted = debug_string(config.server_name.as_str());
        config_reply(config.max_message_size, quoted.as_str())
    } else if starts_with_chars(t.as_slice(), set_max.as_slice()) {
        let rest = slice_subrange(t.as_slice(), 8, t.len());
        assert(rest@ == t@.skip(8));
        match parse_usize_chars(rest) {
            Some(n) => {
                config.max_message_size = n;
                let mut out = chars_of("Updated max_message_size to ");
                push_decimal(&mut out, n as u64);
                push_str(&mut out, "\n");
                string_from_chars(out.as_slice())
            },
            None => "Invalid number\n".to_owned(),
        }
    } else if line.as_bytes().len() > config.max_message_size {
        let mut out = chars_of("Message too long (max: ");
        push_decimal(&mut out, config.max_message_size as u64);
        push_str(&mut out, ")");
        string_from_chars(out.as_slice())
    } else {
        line.to_owned()
    }
}

/// A line within the size limit that is no command comes back unchanged,
/// and leaves the limit as it was.
pub proof fn law_plain_line_echoed(line: Seq<char>, max_message_size: usize, name: Seq<char>)
    requires
        encode_utf8(line).len() <= max_message_size,
        trim(line) != "CONFIG"@,
        !(trim(line).len() >= 8 && trim(line).take(8) == "SET_MAX "@),
    ensures
        reply_to(line, max_message_size, name) == (line, max_message_size),
{
}

/// After `SET_MAX n` the limit is `n`, and the reply reports `n`.
pub proof fn law_set_max_applies(n: usize, max_message_size: usize, name: Seq<char>)
    ensures
        reply_to("SET_MAX "@ + decimal(n as nat), max_message_size, name) == (
            "Updated max_message_size to "@ + decimal(n as nat) + "\n"@,
            n,
        ),
{
    reveal_strlit("SET_MAX ");
    reveal_strlit("CONFIG");
    let line = "SET_MAX "@ + decimal(n as nat);
    crate::text::lemma_decimal_digits(n as nat);
    assert(line[0] == 'S');
    assert(line.last() == decimal(n as nat).last());
    assert(crate::text::is_digit(decimal(n as nat)[decimal(n as nat).len() - 1]));
    crate::text::lemma_trim_no_edges(line);
    assert(line.take(8) =~= "SET_MAX "@);
    assert(line.skip(8) =~= decimal(n as nat));
    crate::text::law_decimal_round_trip(n);
    assert(line.len() != "CONFIG"@.len() || line != "CONFIG"@);
    if line == "CONFIG"@ {
        assert(line[0] == "CONFIG"@[0]);
    }
}

/// A line whose text, without the whitespace around it, is `SET_MAX n`
/// sets the limit to `n` and reports it, whatever whitespace (a carriage
/// return and line feed included) surrounds it.
pub proof fn law_set_max_line(line: Seq<char>, n: usize, max_message_size: usize, name: Seq<char>)
    requires
        trim(line) == "SET_MAX "@ + decimal(n as nat),
    ensures
        reply_to(line, max_message_size, name) == (
            "Updated max_message_size to "@ + decimal(n as nat) + "\n"@,
            n,
        ),
{
    reveal_strlit("SET_MAX ");
    reveal_strlit("CONFIG");
    let t = trim(line);
    crate::text::lemma_decimal_digits(n as nat);
    assert(t.take(8) =~= "SET_MAX "@);
    assert(t.skip(8) =~= decimal(n as nat));
    crate::text::law_decimal_round_trip(n);
    assert(t.len() != "CONFIG"@.len());
}

/// A line that is no command and is longer, in UTF-8 bytes, than the limit
/// is refused with a message naming the limit, which stays as it is.
pub proof fn law_long_line_refused(line: Seq<char>, max_message_size: usize, name: Seq<char>)
    requires
        trim(line) != "CONFIG"@,
        !(trim(line).len() >= 8 && trim(line).take(8) == "SET_MAX "@),
        encode_utf8(line).len() > max_message_size,
    ensures
        reply_to(line, max_message_size, name) == (
            "Message too long (max: "@ + decimal(max_message_size as nat) + ")"@,
            max_message_size,
        ),
{
}

/// `CONFIG` reports the current limit and name and changes nothing, so it
/// shows the limit set by the last `SET_MAX`.
pub proof fn law_config_reports_limit(max_message_size: usize, name: Seq<char>)
    ensures
        reply_to("CONFIG\n"@, max_message_size, name) == (
            config_text(max_message_size, name),
            max_message_size,
        ),
{
    reveal_strlit("CONFIG\n");
    reveal_strlit("CONFIG");
    let line = "CONFIG\n"@;
    let word = "CONFIG"@;
    assert(crate::text::is_ws(line.last()));
    assert(!crate::text::is_ws(line[0]));
    assert(crate::text::skip_ws(line, 0) == 0);
    assert(crate::text::back_ws(line, 0, 6) == 6);
    assert(crate::text::back_ws(line, 0, 7) == 6);
    assert(trim(line) =~= word);
}

/// Only `SET_MAX` changes the size limit; `respond` keeps the server name
/// in every case (its own contract).
pub proof fn law_only_set_max_changes_limit(line: Seq<char>, max_message_size: usize, name: Seq<char>)
    requires
        !(trim(line).len() >= 8 && trim(line).take(8) == "SET_MAX "@),
    ensures
        reply_to(line, max_message_size, name).1 == max_message_size,
{
}

/// Counters of the connections the server has seen.
pub struct EchoServerState {
    active_connections: usize,
    total_connections: usize,
}

impl EchoServerState {
    #[verifier::type_invariant]
    spec fn inv(self) -> bool {
        self.active_connections <= self.total_connections
    }

    /// Connections open now.
    pub closed spec fn active(self) -> usize {
        self.active_connections
    }

    /// Connections ever opened.
    pub closed spec fn total(self) -> usize {
        self.total_connections
    }

    /// Connections open now.
    pub fn active_connections(&self) -> (n: usize)
        ensures
            n == self.active(),
    {
        self.active_connections
    }

    /// Connections ever opened.
    pub fn total_connections(&self) -> (n: usize)
        ensures
            n == self.total(),
    {
        self.total_connections
    }

    /// No connections yet.
    pub fn new() -> (s: Self)
        ensures
            s.active() == 0,
            s.total() == 0,
    {
        EchoServerState { active_connections: 0, total_connections: 0 }
    }

    /// Counts a new connection; returns the active and total connections
    /// including it.
    pub fn connection_started(&mut self) -> (r: (usize, usize))
        requires
            old(self).total() < usize::MAX,
        ensures
            final(self).active() == old(self).active() + 1,
            final(self).total() == old(self).total() + 1,
            r == (final(self).active(), final(self).total()),
            final(self).active() <= final(self).total(),
    {
        proof {
            use_type_invariant(&*self);
        }
        self.total_connections = self.total_connections + 1;
        self.active_connections = self.active_connections + 1;
        (self.active_connections, self.total_connections)
    }

    /// Counts a closed connection; returns the connections left open.
    pub fn connection_ended(&mut self) -> (r: usize)
        requires
            old(self).active() > 0,
        ensures
            final(self).active() == old(self).active() - 1,
            final(self).total() == old(self).total(),
            r == final(self).active(),
            final(self).active() <= final(self).total(),
    {
        proof {
            use_type_invariant(&*self);
        }
        self.active_connections = self.active_connections - 1;
        self.active_connections
    }
}

} // verus!
