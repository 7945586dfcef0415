use etl_updater::server::updater::{Handle, UpdateCode};

#[test]
fn handle_keeps_configuration_path() {
    let h = Handle::new("/etc/etl/server.toml");
    assert_eq!(h.config, "/etc/etl/server.toml");
    assert_eq!(h.start_update().config, "/etc/etl/server.toml");
}

#[test]
fn full_run_succeeds() {
    let h = Handle::new("cfg.toml");
    let starting = h.start_update().script_read(Ok("/opt/update.sh".to_string())).ok().unwrap();
    assert_eq!(starting.script, "/opt/update.sh");
    let waiting = starting.started(Ok(())).ok().unwrap();
    assert!(waiting.exited(Ok(Some(0))).is_ok());
}

#[test]
fn failing_script_still_counts_as_success() {
    let h = Handle::new("cfg.toml");
    let waiting = h
        .start_update()
        .script_read(Ok("/opt/update.sh".to_string()))
        .ok()
        .unwrap()
        .started(Ok(()))
        .ok()
        .unwrap();
    assert!(waiting.exited(Ok(Some(1))).is_ok());
    let h = Handle::new("cfg.toml");
    let waiting = h
        .start_update()
        .script_read(Ok("/opt/update.sh".to_string()))
        .ok()
        .unwrap()
        .started(Ok(()))
        .ok()
        .unwrap();
    assert!(waiting.exited(Ok(None)).is_ok());
}

#[test]
fn unreadable_configuration_is_not_found() {
    let h = Handle::new("missing.toml");
    let e = h.start_update().script_read(Err("No such file or directory (os error 2)".to_string())).err().unwrap();
    assert_eq!(e.code, UpdateCode::NotFound);
    assert_eq!(e.message, "No such file or directory (os error 2)");
}

#[test]
fn failed_start_is_aborted() {
    let h = Handle::new("cfg.toml");
    let starting = h.start_update().script_read(Ok("/nope".to_string())).ok().unwrap();
    let e = starting.started(Err("Permission denied (os error 13)".to_string())).err().unwrap();
    assert_eq!(e.code, UpdateCode::Aborted);
    assert_eq!(e.message, "Permission denied (os error 13)");
}

#[test]
fn failed_wait_is_aborted() {
    let h = Handle::new("cfg.toml");
    let waiting = h
        .start_update()
        .script_read(Ok("/opt/update.sh".to_string()))
        .ok()
        .unwrap()
        .started(Ok(()))
        .ok()
        .unwrap();
    let e = waiting.exited(Err("task panicked".to_string())).err().unwrap();
    assert_eq!(e.code, UpdateCode::Aborted);
    assert_eq!(e.message, "task panicked");
}
