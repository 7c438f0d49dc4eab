//! A blue/green deployment orchestrator: the data model of managed
//! applications, the command protocol, the registry that the daemon's control
//! loop drives, and the route state of each application's reverse proxy.

pub mod app;
pub mod command;
pub mod laws;
pub mod proxy;
pub mod registry;
pub mod service;
pub mod text;
pub mod validators;

pub use app::{
    app_pathbuf, blue_service_name, default_release_dir, green_service_name, App, MigrationStep,
    UnitCommand,
};
pub use command::{parse_command, CommandError, Commands};
pub use proxy::Proxy;
pub use registry::{Action, Registry};
pub use service::Service;
pub use text::{parse_port, trim, u16_to_decimal};
pub use validators::{
    AddressValidator, AppNameValidator, FileValidator, LocationValidator, ServiceNameValidator,
};
