//! What the display side of a remote pane decides: the control messages it
//! sends to its session, and when it sends them.

use vstd::prelude::*;
use vstd::string::*;

verus! {

/// How many control messages may wait for the session at once.
pub const CONTROL_QUEUE_CAPACITY: usize = 10;

/// A control message from the display side to the session.
#[derive(Clone, Copy, Debug, PartialEq, Eq, Structural)]
pub enum RemotePaneMsg {
    /// The pane is going away: shut the session down.
    Close,
    /// The terminal now has this many columns and rows, in that order.
    SizeChanged(i32, i32),
}

impl RemotePaneMsg {
    /// Whether the message may be lost when the queue to the session is
    /// full. A resize may: the next one makes up for it. A `Close` may not:
    /// its sender waits until the queue takes it.
    pub open spec fn droppable(self) -> bool {
        self is SizeChanged
    }

    /// Whether the message may be lost when the queue to the session is full.
    pub fn is_droppable(&self) -> (droppable: bool)
        ensures
            droppable == self.droppable(),
    {
        match self {
            RemotePaneMsg::Close => false,
            RemotePaneMsg::SizeChanged(_, _) => true,
        }
    }
}

/// The geometry (rows, columns) that a pane has seen before its display has
/// reported any: no real geometry equals it.
pub open spec fn unseen() -> (i32, i32) {
    (-1i32, -1i32)
}

/// The message that a report of the display calls for, where `last` is the
/// geometry (rows, columns) seen last. A geometry that differs from it is
/// announced, with the columns first; the same geometry, or none, is not.
pub open spec fn size_message(last: (i32, i32), seen: Option<(i32, i32)>) -> Option<RemotePaneMsg> {
    match seen {
        Some(size) => if size != last {
            Some(RemotePaneMsg::SizeChanged(size.1, size.0))
        } else {
            None
        },
        None => None,
    }
}

/// The geometry seen last after a report of the display.
pub open spec fn size_after(last: (i32, i32), seen: Option<(i32, i32)>) -> (i32, i32) {
    match seen {
        Some(size) => size,
        None => last,
    }
}

/// Remembers the geometry of the display and tells when it has changed.
pub struct SizeTracker {
    last: (i32, i32),
}

impl View for SizeTracker {
    type V = (i32, i32);

    /// The geometry (rows, columns) seen last.
    closed spec fn view(&self) -> (i32, i32) {
        self.last
    }
}

impl SizeTracker {
    /// A tracker that has seen no geometry yet.
    pub fn new() -> (tracker: SizeTracker)
        ensures
            tracker@ == unseen(),
    {
        SizeTracker { last: (-1, -1) }
    }

    /// The geometry (rows, columns) seen last.
    pub fn last(&self) -> (last: (i32, i32))
        ensures
            last == self@,
    {
        self.last
    }

    /// Takes the geometry (rows, columns) that the display reports when its
    /// contents have changed, `None` if it has none to report, and returns
    /// the message to send to the session, if the geometry is a new one.
    ///
    /// The geometry counts as seen whether or not the message can be
    /// delivered: a resize that is lost is made up for by the next one.
    pub fn observe(&mut self, seen: Option<(i32, i32)>) -> (message: Option<RemotePaneMsg>)
        ensures
            message == size_message(old(self)@, seen),
            final(self)@ == size_after(old(self)@, seen),
    {
        match seen {
            Some(size) => {
                if size.0 != self.last.0 || size.1 != self.last.1 {
                    self.last = size;
                    Some(RemotePaneMsg::SizeChanged(size.1, size.0))
                } else {
                    None
                }
            },
            None => None,
        }
    }
}

/// A geometry is announced once: a report of the geometry that was seen
/// last calls for no message and changes nothing, whatever the earlier
/// report was.
pub proof fn lemma_same_size_is_silent(last: (i32, i32), size: (i32, i32))
    ensures
        size_message(size_after(last, Some(size)), Some(size)).is_none(),
        size_after(size_after(last, Some(size)), Some(size)) == size_after(last, Some(size)),
{
}

/// The largest port number.
pub const MAX_PORT: u32 = 65_535;

/// Why a server address cannot be made.
#[derive(Clone, Copy, Debug, PartialEq, Eq, Structural)]
pub enum ConfigError {
    /// No host was given.
    MissingAddress,
    /// No port was given.
    MissingPort,
    /// The port is larger than [`MAX_PORT`].
    PortOutOfRange,
}

/// The character of a decimal digit.
pub open spec fn digit(value: nat) -> char {
    if value == 0 {
        '0'
    } else if value == 1 {
        '1'
    } else if value == 2 {
        '2'
    } else if value == 3 {
        '3'
    } else if value == 4 {
        '4'
    } else if value == 5 {
        '5'
    } else if value == 6 {
        '6'
    } else if value == 7 {
        '7'
    } else if value == 8 {
        '8'
    } else {
        '9'
    }
}

/// A number in decimal, without sign and without leading zeros.
pub open spec fn decimal(value: nat) -> Seq<char>
    decreases value,
{
    if value < 10 {
        seq![digit(value)]
    } else {
        decimal(value / 10).push(digit(value % 10))
    }
}

/// The address `host:port` as one string.
pub open spec fn host_port(host: Seq<char>, port: nat) -> Seq<char> {
    host + seq![':'] + decimal(port)
}

/// What making an address of these parts gives: the host is asked for
/// first, then the port, then the range of the port.
pub open spec fn address_of(host: Option<Seq<char>>, port: Option<u32>) -> Result<
    (Seq<char>, u32),
    ConfigError,
> {
    match host {
        None => Err(ConfigError::MissingAddress),
        Some(h) => match port {
            None => Err(ConfigError::MissingPort),
            Some(p) => if p > MAX_PORT {
                Err(ConfigError::PortOutOfRange)
            } else {
                Ok((h, p))
            },
        },
    }
}

/// The address of the server of a session: a host and a port that is at
/// most [`MAX_PORT`].
pub struct ServerAddress {
    host: String,
    port: u32,
}

impl View for ServerAddress {
    type V = (Seq<char>, u32);

    /// The host and the port.
    closed spec fn view(&self) -> (Seq<char>, u32) {
        (self.host@, self.port)
    }
}

fn digit_str(value: u32) -> (text: &'static str)
    requires
        value < 10,
    ensures
        text@ == seq![digit(value as nat)],
{
    proof {
        reveal_strlit("0");
        reveal_strlit("1");
        reveal_strlit("2");
        reveal_strlit("3");
        reveal_strlit("4");
        reveal_strlit("5");
        reveal_strlit("6");
        reveal_strlit("7");
        reveal_strlit("8");
        reveal_strlit("9");
    }
    let text = if value == 0 {
        "0"
    } else if value == 1 {
        "1"
    } else if value == 2 {
        "2"
    } else if value == 3 {
        "3"
    } else if value == 4 {
        "4"
    } else if value == 5 {
        "5"
    } else if value == 6 {
        "6"
    } else if value == 7 {
        "7"
    } else if value == 8 {
        "8"
    } else {
        "9"
    };
    assert(text@ =~= seq![digit(value as nat)]);
    text
}

fn append_decimal(text: &mut String, value: u32)
    ensures
        final(text)@ == old(text)@ + decimal(value as nat),
    decreases value,
{
    if value < 10 {
        text.append(digit_str(value));
    } else {
        append_decimal(text, value / 10);
        text.append(digit_str(value % 10));
        assert(text@ =~= old(text)@ + decimal(value as nat));
    }
}

impl ServerAddress {
    #[verifier::type_invariant]
    spec fn well_formed(&self) -> bool {
        self.port <= MAX_PORT
    }

    /// Makes the address of a server from the host and the port that were
    /// given, if both were given and the port is one.
    pub fn new(host: Option<String>, port: Option<u32>) -> (address: Result<
        ServerAddress,
        ConfigError,
    >)
        ensures
            match address {
                Ok(a) => address_of(
                    match host {
                        Some(h) => Some(h@),
                        None => None,
                    },
                    port,
                ) == Ok::<(Seq<char>, u32), ConfigError>(a@),
                Err(e) => address_of(
                    match host {
                        Some(h) => Some(h@),
                        None => None,
                    },
                    port,
                ) == Err::<(Seq<char>, u32), ConfigError>(e),
            },
    {
        match host {
            None => Err(ConfigError::MissingAddress),
            Some(host) => match port {
                None => Err(ConfigError::MissingPort),
                Some(port) => if port > MAX_PORT {
                    Err(ConfigError::PortOutOfRange)
                } else {
                    Ok(ServerAddress { host, port })
                },
            },
        }
    }

    /// The host.
    pub fn host(&self) -> (host: &str)
        ensures
            host@ == self@.0,
    {
        self.host.as_str()
    }

    /// The port.
    pub fn port(&self) -> (port: u32)
        ensures
            port == self@.1,
            port <= MAX_PORT,
    {
        proof {
            use_type_invariant(self);
        }
        self.port
    }

    /// The address as `host:port`, the form in which it is resolved.
    pub fn to_host_port(&self) -> (text: String)
        ensures
            text@ == host_port(self@.0, self@.1 as nat),
    {
        let mut text = self.host.clone();
        proof {
            reveal_strlit(":");
        }
        text.append(":");
        append_decimal(&mut text, self.port);
        assert(text@ =~= host_port(self@.0, self@.1 as nat));
        text
    }
}

/// The title of a pane whose terminal has the title `terminal_title` and
/// whose server is `server`: the server alone while the terminal has no
/// title, else the title of the terminal, ` - ` and the server.
pub open spec fn pane_title_spec(terminal_title: Seq<char>, server: Seq<char>) -> Seq<char> {
    if terminal_title.len() == 0 {
        server
    } else {
        terminal_title + " - "@ + server
    }
}

/// Makes the title of a pane from the title of its terminal and its server.
pub fn pane_title(terminal_title: &str, server: &str) -> (title: String)
    ensures
        title@ == pane_title_spec(terminal_title@, server@),
{
    if terminal_title.is_empty() {
        String::from_str(server)
    } else {
        let mut title = String::from_str(terminal_title);
        title.append(" - ");
        title.append(server);
        title
    }
}

} // verus!
