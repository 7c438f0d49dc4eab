use dorc::{
    AddressValidator, AppNameValidator, FileValidator, LocationValidator, ServiceNameValidator,
};

#[test]
fn app_names() {
    let mut v = AppNameValidator;
    assert_eq!(v.validate(&"my-app.v2".to_string()), Ok(()));
    assert_eq!(v.validate(&String::new()), Ok(()));
    assert_eq!(
        v.validate(&"-app".to_string()),
        Err("Invalid app name. Service names must not start with `-`.".to_string())
    );
    assert_eq!(
        v.validate(&"my app".to_string()),
        Err("Invalid app name. Service names may contain only ascii-alphanumeric characters, '.', and '-'.".to_string())
    );
    assert!(v.validate(&"caf\u{e9}".to_string()).is_err());
}

#[test]
fn locations() {
    let mut v = LocationValidator;
    assert_eq!(v.validate(&"/var/tmp/foo".to_string(), true), Ok(()));
    assert_eq!(
        v.validate(&"/nowhere/foo".to_string(), false),
        Err("Invalid path. Must be a directory.".to_string())
    );
    assert_eq!(
        v.validate(&"tmp/foo".to_string(), true),
        Err("Invalid path. Must be absolute.".to_string())
    );
}

#[test]
fn files() {
    let mut v = FileValidator;
    assert_eq!(v.validate(&"/bin/sh".to_string(), true), Ok(()));
    assert_eq!(
        v.validate(&"/bin".to_string(), false),
        Err("Invalid path. Must be a file.".to_string())
    );
    assert_eq!(
        v.validate(&"bin/sh".to_string(), true),
        Err("Invalid path. Must be absolute.".to_string())
    );
}

#[test]
fn addresses() {
    let mut v = AddressValidator;
    assert_eq!(v.validate(&"9000".to_string()), Ok(()));
    assert_eq!(
        v.validate(&"localhost:9000".to_string()),
        Err("Could not parse into address. Only ports are supported.".to_string())
    );
}

#[test]
fn service_names() {
    let mut v = ServiceNameValidator;
    assert_eq!(v.validate(&"blue-foo".to_string()), Ok(()));
    assert_eq!(
        v.validate(&"-foo".to_string()),
        Err("Invalid service name. Service names must not start with `-`.".to_string())
    );
    assert_eq!(
        v.validate(&"foo/bar".to_string()),
        Err("Invalid service name. Service names may contain only ascii-alphanumeric characters, '.', and '-'.".to_string())
    );
}
