use dorc::{Action, App, Commands, MigrationStep, Proxy, Registry, Service, UnitCommand};

fn service(name: &str, port: u16) -> Service {
    Service {
        qualified_name: name.to_string(),
        working_dir: format!("/srv/www/{}", name),
        port,
        on_start: format!("{} -p {}", name, port),
        on_reload: None,
        on_stop: Some(vec![format!("killall {}", name)]),
    }
}

fn foo() -> App {
    App::register(
        "foo".to_string(),
        "/var/tmp/foo".to_string(),
        "/var/tmp/foo/foo".to_string(),
        9000,
        service("blue-foo", 9002),
        service("green-foo", 9001),
    )
}

fn loaded() -> (Registry, String) {
    let mut reg = Registry::new();
    let identity = match reg.handle(Commands::Load("foo".to_string())) {
        Action::Load { identity } => identity,
        other => panic!("unexpected action {:?}", other),
    };
    reg.load_app(identity.clone(), foo());
    (reg, identity)
}

#[test]
fn load_registers_under_config_path() {
    let mut reg = Registry::new();
    let action = reg.handle(Commands::Load("foo".to_string()));
    assert_eq!(action, Action::Load { identity: "/etc/dorc/apps/foo.toml".to_string() });
    assert_eq!(reg.len(), 0);
    let watch = reg.load_app("/etc/dorc/apps/foo.toml".to_string(), foo());
    assert_eq!(watch, "/var/tmp/foo");
    assert_eq!(reg.len(), 1);
    assert!(reg.contains("/etc/dorc/apps/foo.toml"));
    assert_eq!(reg.get("/etc/dorc/apps/foo.toml"), Some(&foo()));
    assert_eq!(reg.identities(), vec!["/etc/dorc/apps/foo.toml".to_string()]);
}

#[test]
fn load_again_replaces_the_application() {
    let (mut reg, identity) = loaded();
    let mut other = foo();
    other.listen_port = 9100;
    reg.load_app(identity.clone(), other);
    assert_eq!(reg.len(), 1);
    assert_eq!(reg.get(&identity).unwrap().listen_port, 9100);
}

#[test]
fn end_to_end_switch_reroutes_new_connections() {
    let (mut reg, identity) = loaded();
    let app = reg.get(&identity).unwrap();
    assert_eq!(app.listen_port, 9000);
    let mut proxy = Proxy::new("listener on 9000", app.active_service.port);
    assert_eq!(proxy.route, "127.0.0.1:9001");
    assert!(proxy.needs_accept_loop());
    proxy.set_is_listening(true);
    assert!(!proxy.needs_accept_loop());
    // a connection accepted now is dialed against the current route
    let earlier_connection = proxy.route.clone();

    let action = reg.handle(Commands::Switch("foo".to_string()));
    assert_eq!(action, Action::Reroute { identity: identity.clone(), port: 9002 });
    if let Action::Reroute { port, .. } = action {
        proxy.reroute_to(port);
    }
    assert_eq!(proxy.route, "127.0.0.1:9002");
    assert_eq!(proxy.listener, "listener on 9000");
    assert!(proxy.is_listening);
    assert_eq!(earlier_connection, "127.0.0.1:9001");
    let app = reg.get(&identity).unwrap();
    assert_eq!(app.active_service.qualified_name, "blue-foo");
    assert_eq!(app.inactive_service.qualified_name, "green-foo");
}

#[test]
fn double_switch_restores_the_active_service() {
    let (mut reg, identity) = loaded();
    reg.handle(Commands::Switch("foo".to_string()));
    let action = reg.handle(Commands::Switch("foo".to_string()));
    assert_eq!(action, Action::Reroute { identity: identity.clone(), port: 9001 });
    assert_eq!(reg.get(&identity), Some(&foo()));
}

#[test]
fn switch_of_unknown_app_is_a_no_op() {
    let (mut reg, identity) = loaded();
    let action = reg.handle(Commands::Switch("nonexistent".to_string()));
    assert_eq!(
        action,
        Action::UnknownApp { identity: "/etc/dorc/apps/nonexistent.toml".to_string() }
    );
    assert_eq!(reg.len(), 1);
    assert_eq!(reg.get(&identity), Some(&foo()));
    assert_eq!(reg.switch_active("/etc/dorc/apps/nonexistent.toml"), None);
}

#[test]
fn reload_names_the_active_unit() {
    let (mut reg, identity) = loaded();
    assert_eq!(
        reg.handle(Commands::Reload("foo".to_string())),
        Action::Reload { unit: "green-foo".to_string() }
    );
    assert_eq!(
        reg.handle(Commands::Reload("bar".to_string())),
        Action::UnknownApp { identity: "/etc/dorc/apps/bar.toml".to_string() }
    );
    assert_eq!(reg.get(&identity), Some(&foo()));
}

#[test]
fn copy_release_touches_only_the_inactive_service() {
    let (mut reg, identity) = loaded();
    let action = reg.handle(Commands::CopyRelease(identity.clone()));
    let steps = match action {
        Action::Migrate { steps } => steps,
        other => panic!("unexpected action {:?}", other),
    };
    assert_eq!(steps.len(), 6);
    assert_eq!(
        steps[0],
        MigrationStep::Supervise { command: UnitCommand::Stop, unit: "blue-foo".to_string() }
    );
    assert_eq!(
        steps[1],
        MigrationStep::CopyDirContents {
            from: "/var/tmp/foo".to_string(),
            to: "/srv/www/blue-foo".to_string()
        }
    );
    assert_eq!(
        steps[2],
        MigrationStep::CopyFile {
            from: "/var/tmp/foo/foo".to_string(),
            to: "/usr/local/bin/blue-foo".to_string()
        }
    );
    match &steps[3] {
        MigrationStep::WriteFile { path, contents } => {
            assert_eq!(path, "/etc/systemd/system/blue-foo.service");
            assert_eq!(contents, &service("blue-foo", 9002).to_systemd_service());
        }
        other => panic!("unexpected step {:?}", other),
    }
    assert_eq!(
        steps[4],
        MigrationStep::Supervise { command: UnitCommand::Start, unit: "blue-foo".to_string() }
    );
    assert_eq!(
        steps[5],
        MigrationStep::Supervise { command: UnitCommand::Enable, unit: "blue-foo".to_string() }
    );
    let app = reg.get(&identity).unwrap();
    assert_eq!(app, &foo());
    assert_eq!(app.active_service.working_dir, "/srv/www/green-foo");
    assert_eq!(app.active_service.port, 9001);
}

#[test]
fn copy_release_of_unknown_identity_is_a_no_op() {
    let (mut reg, identity) = loaded();
    assert_eq!(
        reg.handle(Commands::CopyRelease("/elsewhere.toml".to_string())),
        Action::UnknownApp { identity: "/elsewhere.toml".to_string() }
    );
    assert_eq!(reg.get(&identity), Some(&foo()));
}

#[test]
fn commands_apply_in_order() {
    let mut reg = Registry::new();
    reg.load_app("/etc/dorc/apps/foo.toml".to_string(), foo());
    let mut ports = Vec::new();
    for c in vec![
        Commands::Switch("foo".to_string()),
        Commands::Switch("foo".to_string()),
        Commands::Switch("foo".to_string()),
    ] {
        if let Action::Reroute { port, .. } = reg.handle(c) {
            ports.push(port);
        }
    }
    assert_eq!(ports, vec![9002, 9001, 9002]);
}
