use dorc::{
    app_pathbuf, blue_service_name, default_release_dir, green_service_name, App, Service,
};

fn service(name: &str, port: u16) -> Service {
    Service::from_stdin(
        name.to_string(),
        format!("/srv/{}", name),
        &port.to_string(),
        format!("{} -p {}", name, port),
        format!("killall {}", name),
        String::new(),
    )
    .unwrap()
}

#[test]
fn from_stdin_builds_the_service() {
    let s = Service::from_stdin(
        "green-foo".to_string(),
        "/etc/dorc/service-data/green-foo".to_string(),
        "9001",
        "green-foo -p 9001".to_string(),
        "killall green-foo".to_string(),
        "kill -HUP green-foo".to_string(),
    )
    .unwrap();
    assert_eq!(s.port, 9001);
    assert_eq!(s.on_reload, Some(vec!["kill -HUP green-foo".to_string()]));
    assert_eq!(s.on_stop, Some(vec!["killall green-foo".to_string()]));
    assert_eq!(s.on_start, "green-foo -p 9001");
    assert_eq!(s.working_dir, "/etc/dorc/service-data/green-foo");
}

#[test]
fn from_stdin_refuses_a_bad_port() {
    let s = Service::from_stdin(
        "x".to_string(),
        "/w".to_string(),
        "70000",
        String::new(),
        String::new(),
        String::new(),
    );
    assert_eq!(s, None);
}

#[test]
fn service_defaults() {
    assert_eq!(Service::default_working_dir("blue-foo"), "/etc/dorc/service-data/blue-foo");
    assert_eq!(Service::default_start_command("blue-foo", 9002), "blue-foo -p 9002");
    assert_eq!(Service::default_stop_command("blue-foo"), "killall blue-foo");
}

#[test]
fn registration_names() {
    assert_eq!(blue_service_name("foo"), "blue-foo");
    assert_eq!(green_service_name("foo"), "green-foo");
    assert_eq!(default_release_dir("foo"), "/var/tmp/foo");
    assert_eq!(app_pathbuf("foo".to_string()), "/etc/dorc/apps/foo.toml");
}

#[test]
fn register_makes_green_active() {
    let app = App::register(
        "foo".to_string(),
        "/var/tmp/foo".to_string(),
        "/bin/foo".to_string(),
        9000,
        service("blue-foo", 9002),
        service("green-foo", 9001),
    );
    assert_eq!(app.active_service.qualified_name, "green-foo");
    assert_eq!(app.inactive_service.qualified_name, "blue-foo");
    assert_eq!(app.config_path(), "/etc/dorc/apps/foo.toml");
}

#[test]
fn swap_active_exchanges_services() {
    let mut app = App::register(
        "foo".to_string(),
        "/var/tmp/foo".to_string(),
        "/bin/foo".to_string(),
        9000,
        service("blue-foo", 9002),
        service("green-foo", 9001),
    );
    app.swap_active();
    assert_eq!(app.active_service.port, 9002);
    assert_eq!(app.inactive_service.port, 9001);
    app.swap_active();
    assert_eq!(app.active_service.port, 9001);
}

#[test]
fn unit_file_describes_the_service() {
    let s = Service::from_stdin(
        "green-foo".to_string(),
        "/srv/green-foo".to_string(),
        "9001",
        "green-foo -p 9001".to_string(),
        "killall green-foo".to_string(),
        "reload-foo".to_string(),
    )
    .unwrap();
    assert_eq!(
        s.to_systemd_service(),
        "[Unit]\n\n[Service]\nExecStart=green-foo -p 9001\nExecReload=reload-foo\nExecStop=killall green-foo\nWorkingDirectory=/srv/green-foo\n\n[Install]\nWantedBy=multi-user.target\n"
    );
    let bare = Service {
        qualified_name: "blue-foo".to_string(),
        working_dir: "/srv/blue-foo".to_string(),
        port: 9002,
        on_start: "run".to_string(),
        on_reload: None,
        on_stop: Some(vec!["a".to_string(), "b".to_string()]),
    };
    assert_eq!(
        bare.to_systemd_service(),
        "[Unit]\n\n[Service]\nExecStart=run\nExecStop=a\nExecStop=b\nWorkingDirectory=/srv/blue-foo\n\n[Install]\nWantedBy=multi-user.target\n"
    );
}
