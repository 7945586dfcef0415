//! The server configuration: where the update service listens, the script it
//! runs, and the token that clients must present.

use vstd::prelude::*;
use crate::text::{append_decimal, decimal, is_digit, lemma_decimal_is_numeral, numeral_value};

verus! {

/// The port the service listens on when its configuration names none.
pub const DEFAULT_PORT: usize = 6972;

/// `Server` configuration containing connection and authentication settings.
pub struct Configuration {
    pub server: Server,
}

/// Server configuration settings.
pub struct Server {
    pub address: String,
    pub port: Option<usize>,
    pub script: String,
    pub token: String,
}

/// The port that is used for a configured `port` entry.
pub open spec fn effective_port(port: Option<usize>) -> nat {
    match port {
        Some(p) => p as nat,
        None => DEFAULT_PORT as nat,
    }
}

/// The socket address text `{address}:{port}` the service listens on.
pub open spec fn listen_address(address: Seq<char>, port: Option<usize>) -> Seq<char> {
    address + ":"@ + decimal(effective_port(port))
}

impl Server {
    /// Retrieve the address of the configured server: `{address}:{port}`,
    /// with the default port when none is configured.
    pub fn get_address(&self) -> (address: String)
        ensures
            address@ == listen_address(self.address@, self.port),
    {
        let port = match self.port {
            Some(p) => p,
            None => DEFAULT_PORT,
        };
        let mut address = self.address.clone();
        address.append(":");
        append_decimal(&mut address, port);
        address
    }
}

/// Retrieve the address the service listens on.
pub fn get_server_address(configuration: &Configuration) -> (address: String)
    ensures
        address@ == listen_address(configuration.server.address@, configuration.server.port),
{
    configuration.server.get_address()
}

/// Retrieve the path of the update script.
pub fn get_script(configuration: &Configuration) -> (script: String)
    ensures
        script@ == configuration.server.script@,
{
    configuration.server.script.clone()
}

/// Retrieve the token that clients must present.
pub fn get_token(configuration: &Configuration) -> (token: String)
    ensures
        token@ == configuration.server.token@,
{
    configuration.server.token.clone()
}

/// A service whose configuration names no port listens exactly where one
/// configured with the default port does.
pub proof fn lemma_default_port_address(address: Seq<char>)
    ensures
        listen_address(address, None) == listen_address(address, Some(DEFAULT_PORT)),
{
}

/// The client reaches a server configured with the same host and port at
/// the server's listening address, over plain HTTP: the two sides agree on
/// the port, the default port included.
pub proof fn lemma_client_reaches_listen_address(address: Seq<char>, port: Option<usize>)
    ensures
        crate::client::configuration::server_url(address, port) == "http://"@ + listen_address(
            address,
            port,
        ),
{
    assert(crate::client::configuration::server_url(address, port) =~= "http://"@
        + listen_address(address, port));
}

/// The listening address starts with the configured host verbatim, then a
/// `:`, then the decimal numeral (digits only, no leading zero) of the
/// configured port, or of the default port when none is configured.
pub proof fn lemma_listen_address_names_host_and_port(address: Seq<char>, port: Option<usize>)
    ensures
        listen_address(address, port).len() > address.len() as int + 1,
        listen_address(address, port).subrange(0, address.len() as int) == address,
        listen_address(address, port)[address.len() as int] == ':',
        forall|i: int|
            address.len() as int + 1 <= i < listen_address(address, port).len() ==> is_digit(
                #[trigger] listen_address(address, port)[i],
            ),
        listen_address(address, port)[address.len() as int + 1] == '0' ==> listen_address(address, port).len()
            == address.len() as int + 2,
        numeral_value(listen_address(address, port).subrange(address.len() as int + 1, listen_address(address, port).len() as int))
            == match port {
            Some(p) => p as nat,
            None => 6972,
        },
{
    reveal_strlit(":");
    let n = effective_port(port);
    lemma_decimal_is_numeral(n);
    let u = listen_address(address, port);
    let d = decimal(n);
    assert(u == address + ":"@ + d);
    assert(u.subrange(0, address.len() as int) =~= address);
    assert(u.subrange(address.len() as int + 1, u.len() as int) =~= d);
    assert forall|i: int| address.len() as int + 1 <= i < u.len() implies is_digit(#[trigger] u[i]) by {
        assert(u[i] == d[i - 1 - address.len() as int]);
    }
    assert(u[address.len() as int + 1] == d[0]);
}

} // verus!
