//! A managed application: two services, one active and one inactive, the
//! release it is deployed from, and the port its proxy listens on.

use vstd::prelude::*;
use vstd::string::*;

use crate::service::{service_unit_file, Service, ServiceView};

verus! {

/// A managed application. Traffic on `listen_port` goes to `active_service`;
/// `inactive_service` is the standby copy that new releases are copied into.
#[derive(Debug, PartialEq, Eq)]
pub struct App {
    pub app_name: String,
    pub release_dir: String,
    pub release_bin: String,
    pub listen_port: u16,
    pub active_service: Service,
    pub inactive_service: Service,
}

/// The value of an `App`.
pub struct AppView {
    pub app_name: Seq<char>,
    pub release_dir: Seq<char>,
    pub release_bin: Seq<char>,
    pub listen_port: u16,
    pub active_service: ServiceView,
    pub inactive_service: ServiceView,
}

impl View for App {
    type V = AppView;

    open spec fn view(&self) -> AppView {
        AppView {
            app_name: self.app_name@,
            release_dir: self.release_dir@,
            release_bin: self.release_bin@,
            listen_port: self.listen_port,
            active_service: self.active_service@,
            inactive_service: self.inactive_service@,
        }
    }
}

/// `a` with its active and inactive services exchanged.
pub open spec fn swapped(a: AppView) -> AppView {
    AppView { active_service: a.inactive_service, inactive_service: a.active_service, ..a }
}

/// The directory that holds one configuration file per application.
pub open spec fn apps_dir() -> Seq<char> {
    "/etc/dorc/apps/"@
}

/// The path of the configuration file of the application `name`.
pub open spec fn config_path(name: Seq<char>) -> Seq<char> {
    apps_dir() + name + ".toml"@
}

/// The path of the configuration file of the application `app_name`; it is
/// also the identity under which the daemon registers that application.
pub fn app_pathbuf(app_name: String) -> (r: String)
    ensures
        r@ == config_path(app_name@),
{
    let mut s = String::from_str("/etc/dorc/apps/");
    s.append(app_name.as_str());
    s.append(".toml");
    s
}

/// What a supervisor is asked to do with a unit.
#[derive(PartialEq, Eq, Structural, Clone, Copy, Debug)]
pub enum UnitCommand {
    Stop,
    Start,
    Enable,
    Reload,
}

/// One step of deploying a release into a service, performed in order by the
/// caller; a failed step ends the deployment.
#[derive(Debug, PartialEq, Eq)]
pub enum MigrationStep {
    /// Ask the supervisor to run `command` on `unit`.
    Supervise { command: UnitCommand, unit: String },
    /// Copy the contents of directory `from` into directory `to`, overwriting.
    CopyDirContents { from: String, to: String },
    /// Copy the file `from` to `to`.
    CopyFile { from: String, to: String },
    /// Write `contents` to the file `path`.
    WriteFile { path: String, contents: String },
}

/// The value of a `MigrationStep`.
pub enum StepView {
    Supervise { command: UnitCommand, unit: Seq<char> },
    CopyDirContents { from: Seq<char>, to: Seq<char> },
    CopyFile { from: Seq<char>, to: Seq<char> },
    WriteFile { path: Seq<char>, contents: Seq<char> },
}

impl View for MigrationStep {
    type V = StepView;

    open spec fn view(&self) -> StepView {
        match self {
            MigrationStep::Supervise { command, unit } => StepView::Supervise {
                command: *command,
                unit: unit@,
            },
            MigrationStep::CopyDirContents { from, to } => StepView::CopyDirContents {
                from: from@,
                to: to@,
            },
            MigrationStep::CopyFile { from, to } => StepView::CopyFile { from: from@, to: to@ },
            MigrationStep::WriteFile { path, contents } => StepView::WriteFile {
                path: path@,
                contents: contents@,
            },
        }
    }
}

/// The path that a service's executable is installed to.
pub open spec fn installed_bin_path(name: Seq<char>) -> Seq<char> {
    "/usr/local/bin/"@ + name
}

/// The path of a service's systemd unit file.
pub open spec fn unit_path(name: Seq<char>) -> Seq<char> {
    "/etc/systemd/system/"@ + name + ".service"@
}

/// The steps that deploy the release of `app` into `service`: stop it, copy
/// the release directory into its working directory and the release binary
/// to its installed path, write its unit file, then start and enable it.
pub open spec fn migration_plan(app: AppView, service: ServiceView) -> Seq<StepView> {
    seq![
        StepView::Supervise { command: UnitCommand::Stop, unit: service.qualified_name },
        StepView::CopyDirContents { from: app.release_dir, to: service.working_dir },
        StepView::CopyFile { from: app.release_bin, to: installed_bin_path(service.qualified_name) },
        StepView::WriteFile {
            path: unit_path(service.qualified_name),
            contents: service_unit_file(service),
        },
        StepView::Supervise { command: UnitCommand::Start, unit: service.qualified_name },
        StepView::Supervise { command: UnitCommand::Enable, unit: service.qualified_name },
    ]
}

/// The value of each step of a list.
pub open spec fn steps_view(steps: Seq<MigrationStep>) -> Seq<StepView> {
    steps.map_values(|s: MigrationStep| s@)
}

/// The name of an application's blue service.
pub open spec fn blue_name(app_name: Seq<char>) -> Seq<char> {
    "blue-"@ + app_name
}

/// The name of an application's green service.
pub open spec fn green_name(app_name: Seq<char>) -> Seq<char> {
    "green-"@ + app_name
}

/// The release directory offered by default for an application.
pub open spec fn default_release_dir_spec(app_name: Seq<char>) -> Seq<char> {
    "/var/tmp/"@ + app_name
}

/// The name of the blue service of the application `app_name`.
pub fn blue_service_name(app_name: &str) -> (r: String)
    ensures
        r@ == blue_name(app_name@),
{
    let mut s = String::from_str("blue-");
    s.append(app_name);
    s
}

/// The name of the green service of the application `app_name`.
pub fn green_service_name(app_name: &str) -> (r: String)
    ensures
        r@ == green_name(app_name@),
{
    let mut s = String::from_str("green-");
    s.append(app_name);
    s
}

/// The release directory offered by default for the application `app_name`.
pub fn default_release_dir(app_name: &str) -> (r: String)
    ensures
        r@ == default_release_dir_spec(app_name@),
{
    let mut s = String::from_str("/var/tmp/");
    s.append(app_name);
    s
}

impl App {
    /// A newly registered application: `green` serves first, `blue` stands by.
    pub fn register(
        app_name: String,
        release_dir: String,
        release_bin: String,
        listen_port: u16,
        blue: Service,
        green: Service,
    ) -> (r: App)
        ensures
            r@ == (AppView {
                app_name: app_name@,
                release_dir: release_dir@,
                release_bin: release_bin@,
                listen_port,
                active_service: green@,
                inactive_service: blue@,
            }),
    {
        App {
            app_name,
            release_dir,
            release_bin,
            listen_port,
            active_service: green,
            inactive_service: blue,
        }
    }

    /// Exchanges the active and the inactive service.
    pub fn swap_active(&mut self)
        ensures
            final(self)@ == swapped(old(self)@),
    {
        std::mem::swap(&mut self.inactive_service, &mut self.active_service);
    }

    /// The path this application's configuration is saved to.
    pub fn config_path(&self) -> (r: String)
        ensures
            r@ == config_path(self.app_name@),
    {
        app_pathbuf(self.app_name.clone())
    }

    /// The steps that deploy this application's release into `service`.
    pub fn migrate_service(&self, service: &Service) -> (r: Vec<MigrationStep>)
        ensures
            steps_view(r@) == migration_plan(self@, service@),
    {
        let name = &service.qualified_name;
        let mut bin = String::from_str("/usr/local/bin/");
        bin.append(name.as_str());
        let mut unit = String::from_str("/etc/systemd/system/");
        unit.append(name.as_str());
        unit.append(".service");
        let mut r: Vec<MigrationStep> = Vec::new();
        r.push(MigrationStep::Supervise { command: UnitCommand::Stop, unit: name.clone() });
        r.push(
            MigrationStep::CopyDirContents {
                from: self.release_dir.clone(),
                to: service.working_dir.clone(),
            },
        );
        r.push(MigrationStep::CopyFile { from: self.release_bin.clone(), to: bin });
        r.push(MigrationStep::WriteFile { path: unit, contents: service.to_systemd_service() });
        r.push(MigrationStep::Supervise { command: UnitCommand::Start, unit: name.clone() });
        r.push(MigrationStep::Supervise { command: UnitCommand::Enable, unit: name.clone() });
        assert(steps_view(r@) =~= migration_plan(self@, service@));
        r
    }
}

} // verus!
