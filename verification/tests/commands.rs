use etl_updater::client::commands::{update_reply, update_targets};
use etl_updater::client::configuration::Server;

#[test]
fn one_target_per_server_in_order() {
    let servers = vec![
        Server { address: "b.example".to_string(), port: Some(81), token: "tb".to_string() },
        Server { address: "a.example".to_string(), port: None, token: "ta".to_string() },
    ];
    let targets = update_targets(&servers);
    assert_eq!(targets.len(), 2);
    assert_eq!(targets[0].address, "http://b.example:81");
    assert_eq!(targets[0].token, "tb");
    assert_eq!(targets[1].address, "http://a.example:6972");
    assert_eq!(targets[1].token, "ta");
}

#[test]
fn no_servers_no_targets() {
    assert!(update_targets(&Vec::new()).is_empty());
}

#[test]
fn success_reply() {
    assert_eq!(
        update_reply("http://a.example:6972", Ok(())),
        "Updated server: `http://a.example:6972`."
    );
}

#[test]
fn error_reply() {
    assert_eq!(
        update_reply("http://a.example:6972", Err("transport error".to_string())),
        "Error updating server: `http://a.example:6972` because of `transport error`."
    );
}
