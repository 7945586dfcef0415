use etl_updater::client::configuration as client;
use etl_updater::server::configuration as server;

fn client_server(address: &str, port: Option<usize>, token: &str) -> client::Server {
    client::Server { address: address.to_string(), port, token: token.to_string() }
}

fn server_configuration(address: &str, port: Option<usize>) -> server::Configuration {
    server::Configuration {
        server: server::Server {
            address: address.to_string(),
            port,
            script: "/opt/etl/update.sh".to_string(),
            token: "s3cret".to_string(),
        },
    }
}

#[test]
fn port_rendering() {
    for port in [0usize, 7, 10, 99, 100, 6972, 65535, usize::MAX] {
        let c = server_configuration("h", Some(port));
        assert_eq!(server::get_server_address(&c), format!("h:{}", port));
    }
}

#[test]
fn client_address_with_port() {
    let s = client_server("etl.example.org", Some(8080), "abc");
    assert_eq!(s.get_address(), "http://etl.example.org:8080");
}

#[test]
fn client_address_default_port() {
    let s = client_server("10.0.0.2", None, "abc");
    assert_eq!(s.get_address(), "http://10.0.0.2:6972");
    let t = client_server("10.0.0.2", Some(client::DEFAULT_PORT), "abc");
    assert_eq!(s.get_address(), t.get_address());
}

#[test]
fn client_address_port_zero_and_empty_host() {
    let s = client_server("", Some(0), "abc");
    assert_eq!(s.get_address(), "http://:0");
}

#[test]
fn client_token_getter() {
    let s = client_server("host", None, "tok-123");
    assert_eq!(s.get_token(), "tok-123");
}

#[test]
fn discord_token_is_read() {
    let c = client::Configuration {
        discord: client::Discord { token: "discord-token".to_string() },
        server: None,
    };
    assert_eq!(client::get_discord_token(&c), "discord-token");
}

#[test]
fn no_server_section_gives_no_servers() {
    let c = client::Configuration {
        discord: client::Discord { token: "d".to_string() },
        server: None,
    };
    assert!(client::get_servers(c).is_empty());
}

#[test]
fn servers_keep_their_order() {
    let c = client::Configuration {
        discord: client::Discord { token: "d".to_string() },
        server: Some(vec![
            client_server("b.example", Some(1), "t1"),
            client_server("a.example", None, "t2"),
        ]),
    };
    let servers = client::get_servers(c);
    assert_eq!(servers.len(), 2);
    assert_eq!(servers[0].address, "b.example");
    assert_eq!(servers[1].address, "a.example");
    assert_eq!(servers[1].get_token(), "t2");
}

#[test]
fn server_listen_address() {
    let c = server_configuration("0.0.0.0", Some(50051));
    assert_eq!(c.server.get_address(), "0.0.0.0:50051");
    assert_eq!(server::get_server_address(&c), "0.0.0.0:50051");
}

#[test]
fn server_listen_address_default_port() {
    let c = server_configuration("127.0.0.1", None);
    assert_eq!(server::get_server_address(&c), "127.0.0.1:6972");
    let d = server_configuration("127.0.0.1", Some(server::DEFAULT_PORT));
    assert_eq!(server::get_server_address(&c), server::get_server_address(&d));
}

#[test]
fn server_script_and_token() {
    let c = server_configuration("127.0.0.1", None);
    assert_eq!(server::get_script(&c), "/opt/etl/update.sh");
    assert_eq!(server::get_token(&c), "s3cret");
}

#[test]
fn client_reaches_server_listen_address() {
    for port in [None, Some(1), Some(6972), Some(65535)] {
        let c = server_configuration("etl.example.org", port);
        let s = client_server("etl.example.org", port, "x");
        assert_eq!(s.get_address(), format!("http://{}", server::get_server_address(&c)));
    }
}
