//! Startup configuration: the upstream target and where the proxy listens.

use vstd::prelude::*;

verus! {

/// Address on which the proxy accepts inbound connections: the loopback
/// interface, as the four octets of an IPv4 address.
pub const LISTEN_ADDRESS: [u8; 4] = [127, 0, 0, 1];

/// TCP port on which the proxy accepts inbound connections.
pub const LISTEN_PORT: u16 = 8332;

/// Longest time, in seconds, that one outbound request may take. A call that
/// runs into this limit ends as a transport failure.
pub const OUTBOUND_TIMEOUT_SECS: u64 = 30;

/// The full URL that every outbound request is sent to.
///
/// It is fixed when the process starts and never changes afterwards; request
/// handlers only ever read it.
pub struct UpstreamTarget {
    url: String,
}

impl View for UpstreamTarget {
    type V = Seq<char>;

    closed spec fn view(&self) -> Seq<char> {
        self.url@
    }
}

/// Why the proxy could not be configured at startup.
#[derive(Clone, Copy, Debug, PartialEq, Eq)]
pub enum StartupError {
    /// No upstream URL was supplied on the command line.
    MissingUpstreamUrl,
}

impl StartupError {
    /// The diagnostic shown before the process gives up.
    pub fn message(&self) -> (text: String)
        ensures
            text@ == "QuickNode URL not provided. Usage: <program> <quicknode_url>"@,
    {
        match self {
            StartupError::MissingUpstreamUrl => {
                "QuickNode URL not provided. Usage: <program> <quicknode_url>".to_owned()
            },
        }
    }
}

impl UpstreamTarget {
    /// Wraps `url` as the upstream target. The text is taken as it is: a
    /// malformed URL is not rejected here, it makes every outbound request
    /// fail when it is sent.
    pub fn new(url: String) -> (target: UpstreamTarget)
        ensures
            target@ == url@,
    {
        UpstreamTarget { url }
    }

    /// The URL as text.
    pub fn as_str(&self) -> (url: &str)
        ensures
            url@ == self@,
    {
        self.url.as_str()
    }
}

/// What [`get_quicknode_url`] yields for the argument list `args`: the second
/// entry, right after the program name, if there is one.
pub open spec fn upstream_argument(args: Seq<Seq<char>>) -> Option<Seq<char>> {
    if args.len() >= 2 {
        Some(args[1])
    } else {
        None
    }
}

/// The argument list as a sequence of texts.
pub open spec fn argument_texts(args: Seq<String>) -> Seq<Seq<char>> {
    args.map_values(|a: String| a@)
}

/// Picks the upstream URL out of the process's argument list.
///
/// `args` is the whole list, program name first. The first argument after the
/// program name is the URL; any further arguments are ignored. Without it the
/// proxy must not start, and the error says so.
pub fn get_quicknode_url(args: &Vec<String>) -> (found: Result<UpstreamTarget, StartupError>)
    ensures
        match upstream_argument(argument_texts(args@)) {
            Some(url) => found matches Ok(target) && target@ == url,
            None => found == Err::<UpstreamTarget, StartupError>(StartupError::MissingUpstreamUrl),
        },
{
    if args.len() < 2 {
        Err(StartupError::MissingUpstreamUrl)
    } else {
        Ok(UpstreamTarget::new(args[1].clone()))
    }
}

} // verus!
