//! The client configuration: the Discord bot token and the servers that the
//! bot updates, with the addresses it reaches them at.

use vstd::prelude::*;
use crate::text::{append_decimal, decimal, is_digit, lemma_decimal_is_numeral, numeral_value};

verus! {

/// The port a server listens on when its configuration names none.
pub const DEFAULT_PORT: usize = 6972;

/// Client configuration containing server targets and the Discord bot token.
pub struct Configuration {
    pub discord: Discord,
    pub server: Option<Vec<Server>>,
}

/// Discord configuration settings.
pub struct Discord {
    pub token: String,
}

/// One server that the bot can update.
pub struct Server {
    pub address: String,
    pub port: Option<usize>,
    pub token: String,
}

/// The port that is used for a configured `port` entry.
pub open spec fn effective_port(port: Option<usize>) -> nat {
    match port {
        Some(p) => p as nat,
        None => DEFAULT_PORT as nat,
    }
}

/// The URL under which the client reaches a server with the given host and port.
pub open spec fn server_url(address: Seq<char>, port: Option<usize>) -> Seq<char> {
    "http://"@ + address + ":"@ + decimal(effective_port(port))
}

/// The list of servers that a configuration names; none when the section is absent.
pub open spec fn configured_servers(server: Option<Seq<Server>>) -> Seq<Server> {
    match server {
        Some(s) => s,
        None => Seq::empty(),
    }
}

impl Server {
    /// Retrieve the address of the `Server`: `http://{address}:{port}`, with
    /// the default port when none is configured.
    pub fn get_address(&self) -> (url: String)
        ensures
            url@ == server_url(self.address@, self.port),
    {
        let port = match self.port {
            Some(p) => p,
            None => DEFAULT_PORT,
        };
        let mut url = String::from_str("http://");
        url.append(self.address.as_str());
        url.append(":");
        append_decimal(&mut url, port);
        url
    }

    /// Retrieve the token of the `Server`.
    pub fn get_token(&self) -> (token: &str)
        ensures
            token@ == self.token@,
    {
        self.token.as_str()
    }
}

/// Retrieve the Discord token from a configuration.
pub fn get_discord_token(configuration: &Configuration) -> (token: String)
    ensures
        token@ == configuration.discord.token@,
{
    configuration.discord.token.clone()
}

/// Retrieve the configured servers, in the order the configuration lists
/// them; none when the configuration has no server section.
pub fn get_servers(configuration: Configuration) -> (servers: Vec<Server>)
    ensures
        servers@ == configured_servers(match configuration.server {
            Some(v) => Some(v@),
            None => None,
        }),
{
    match configuration.server {
        Some(servers) => servers,
        None => Vec::new(),
    }
}

/// A server whose configuration names no port is reached exactly as one
/// configured with the default port.
pub proof fn lemma_default_port_address(address: Seq<char>)
    ensures
        server_url(address, None) == server_url(address, Some(DEFAULT_PORT)),
{
}

/// The URL names the configured host verbatim, after `http://` and before
/// a `:`, and ends in the decimal numeral (digits only, no leading zero) of
/// the configured port, or of the default port when none is configured.
pub proof fn lemma_url_names_host_and_port(address: Seq<char>, port: Option<usize>)
    ensures
        server_url(address, port).len() > address.len() + 8,
        server_url(address, port).subrange(0, 7) == "http://"@,
        server_url(address, port).subrange(7, 7 + address.len() as int) == address,
        server_url(address, port)[7 + address.len() as int] == ':',
        forall|i: int|
            8 + address.len() as int <= i < server_url(address, port).len() ==> is_digit(
                #[trigger] server_url(address, port)[i],
            ),
        server_url(address, port)[8 + address.len() as int] == '0' ==> server_url(address, port).len()
            == address.len() as int + 9,
        numeral_value(server_url(address, port).subrange(8 + address.len() as int, server_url(address, port).len() as int))
            == match port {
            Some(p) => p as nat,
            None => 6972,
        },
{
    reveal_strlit("http://");
    reveal_strlit(":");
    let n = effective_port(port);
    lemma_decimal_is_numeral(n);
    let u = server_url(address, port);
    let d = decimal(n);
    assert(u == "http://"@ + address + ":"@ + d);
    assert(u.subrange(0, 7) =~= "http://"@);
    assert(u.subrange(7, 7 + address.len() as int) =~= address);
    assert(u.subrange(8 + address.len() as int, u.len() as int) =~= d);
    assert forall|i: int| 8 + address.len() as int <= i < u.len() implies is_digit(#[trigger] u[i]) by {
        assert(u[i] == d[i - 8 - address.len() as int]);
    }
    assert(u[8 + address.len() as int] == d[0]);
}

/// The configured servers are exactly the listed ones, in their order, and
/// none when the section is absent.
pub proof fn lemma_configured_servers_are_listed(servers: Seq<Server>)
    ensures
        configured_servers(Some(servers)).len() == servers.len(),
        forall|i: int| 0 <= i < servers.len() ==> #[trigger] configured_servers(Some(servers))[i] == servers[i],
        configured_servers(None).len() == 0,
{
}

} // verus!
