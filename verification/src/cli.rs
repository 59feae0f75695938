//! The command line.

use vstd::prelude::*;
use vstd::string::*;

use crate::addr::SocketAddr;
use crate::text::{chars_of, parse_u32, parsed_u32};
use crate::time::Duration;

verus! {

/// What the command line says.
#[derive(Debug)]
pub struct Options {
    /// Database connection string.
    /// See https://docs.rs/tokio-postgres/latest/tokio_postgres/config/struct.Config.html
    pub db: String,
    pub command: Command,
}

/// What the program is to do.
#[derive(Debug)]
pub enum Command {
    /// Commands related to ping monitors.
    Ping(PingOptions),
    /// Commands to configure alerts.
    Alert(AlertOptions),
    /// Run the scree server (service monitoring, alerts, dashboard).
    Run(RunOptions),
    /// Migrate database schema to the latest version.
    Migrate,
}

#[derive(Debug)]
pub struct PingOptions {
    pub command: PingCommand,
}

#[derive(Debug)]
pub enum PingCommand {
    /// Create a new ping monitor.
    Create(PingCreateOptions),
    /// List the registered ping monitors.
    List,
}

#[derive(Debug)]
pub struct PingCreateOptions {
    /// Name of the new ping monitor.
    pub name: String,
    /// Expected time between pings.
    pub period: Duration,
    /// Grace period: when a deadline is missed, the monitor will be considered
    /// in a "late" state for this amount of time, and will enter a failure
    /// state only after the grace period expires as well.
    /// A grace period of 0 will lead to spurious failure alerts.
    /// If no grace period is explicitly specified, it will be 10% of the given period.
    pub grace: Option<Duration>,
}

#[derive(Debug)]
pub struct AlertOptions {
    pub command: AlertCommand,
}

#[derive(Debug)]
pub enum AlertCommand {
    /// Manage email alerts.
    Email(EmailOptions),
    /// Manage Telegram alerts.
    Telegram(TelegramOptions),
    /// Send a test alert to all configured targets.
    Test,
}

#[derive(Debug)]
pub struct EmailOptions {
    pub command: TelegramCommand,
}

#[derive(Debug)]
pub enum EmailCommand {
    /// Configure email sending.
    Configure,
    /// Enable email alerts.
    Enable,
    /// Disable email alerts.
    Disable,
}

#[derive(Debug)]
pub struct TelegramOptions {
    pub command: TelegramCommand,
}

#[derive(Debug)]
pub enum TelegramCommand {
    /// Enable Telegram alerts.
    Enable(TelegramEnableOptions),
    /// Disable Telegram alerts.
    Disable,
}

#[derive(Debug)]
pub struct TelegramEnableOptions {
    /// Token of the bot that should send alerts.
    pub bot_token: String,
    /// Chat id where alerts are sent to.
    pub chat_id: String,
}

#[derive(Debug, Clone)]
pub struct RunOptions {
    /// The address on which the HTTP server should listen.
    /// Either an IP address and port for a regular socket, or an absolute path for a unix socket.
    pub listen_addr: SocketAddrOrPath,
    /// Obtain the client's remote IP address from the header "x-real-ip".
    /// Useful if connections are going through a reverse proxy.
    pub set_real_ip: bool,
    /// The permissions of the unix socket.
    pub unix_socket_mode: u32,
}

/// The address on which the server listens if nothing else is said.
pub const DEFAULT_LISTEN: &'static str = "127.0.0.1:3000";

/// The permissions of the unix socket if nothing else is said.
pub const DEFAULT_SOCKET_MODE: &'static str = "700";

/// Where the server listens.
#[derive(Debug, Clone)]
pub enum SocketAddrOrPath {
    /// At a network address.
    Inet(SocketAddr),
    /// At the unix socket with the given path.
    Unix(String),
}

/// Where the server listens, in mathematical terms.
pub enum ListenSpec {
    Inet(SocketAddr),
    Unix(Seq<char>),
}

impl View for SocketAddrOrPath {
    type V = ListenSpec;

    open spec fn view(&self) -> ListenSpec {
        match self {
            SocketAddrOrPath::Inet(addr) => ListenSpec::Inet(*addr),
            SocketAddrOrPath::Unix(path) => ListenSpec::Unix(path@),
        }
    }
}

/// Whether a text is an absolute path.
pub open spec fn is_path(s: Seq<char>) -> bool {
    s.len() > 0 && s[0] == '/'
}

/// A text stands for no address.
#[derive(Debug, Clone, Copy, PartialEq, Eq, Structural)]
pub struct AddrError;

impl SocketAddrOrPath {
    /// Where the given text tells the server to listen: an absolute path is a unix socket, and
    /// anything else has to be a network address. `parsed` is the network address that the text
    /// stands for, if it stands for one.
    pub fn from_str(s: &str, parsed: Option<SocketAddr>) -> (res: Result<Self, AddrError>)
        ensures
            if is_path(s@) {
                res is Ok && res->Ok_0@ == ListenSpec::Unix(s@)
            } else {
                match parsed {
                    Some(addr) => res is Ok && res->Ok_0@ == ListenSpec::Inet(addr),
                    None => res == Err::<Self, AddrError>(AddrError),
                }
            },
    {
        let chars: Vec<char> = chars_of(s);
        if chars.len() > 0 && chars[0] == '/' {
            return Ok(SocketAddrOrPath::Unix(s.to_string()));
        }
        match parsed {
            Some(addr) => Ok(SocketAddrOrPath::Inet(addr)),
            None => Err(AddrError),
        }
    }
}

/// A text is no octal number.
#[derive(Debug, Clone, Copy, PartialEq, Eq, Structural)]
pub struct FileModeError;

impl FileModeError {
    /// The message of the error.
    pub fn message(&self) -> (res: &'static str)
        ensures
            res@ == "unable to parse as octal number"@,
    {
        "unable to parse as octal number"
    }
}

/// The permissions that an octal number stands for.
pub fn parse_file_mode(s: &str) -> (res: Result<u32, FileModeError>)
    ensures
        res == match parsed_u32(s@, 8) {
            Some(mode) => Ok::<u32, FileModeError>(mode),
            None => Err::<u32, FileModeError>(FileModeError),
        },
{
    match parse_u32(s, 8) {
        Some(mode) => Ok(mode),
        None => Err(FileModeError),
    }
}

/// A text is a path if and only if it starts with a slash.
pub proof fn law_paths_start_with_a_slash(c: char, rest: Seq<char>)
    ensures
        is_path(seq![c] + rest) <==> c == '/',
        !is_path(Seq::empty()),
{
    assert((seq![c] + rest)[0] == c);
}

} // verus!
