//! One runnable copy of an application: its unit name, working directory,
//! port and lifecycle commands.

use vstd::prelude::*;
use vstd::string::*;

use crate::text::{decimal, port_of, push_decimal};

verus! {

/// A deployable unit. `qualified_name` names its process and its systemd
/// unit; `working_dir` is where release files are copied to.
#[derive(Debug, PartialEq, Eq)]
pub struct Service {
    pub qualified_name: String,
    pub working_dir: String,
    pub port: u16,
    pub on_start: String,
    pub on_reload: Option<Vec<String>>,
    pub on_stop: Option<Vec<String>>,
}

/// The value of a `Service`, with each text as its characters.
pub struct ServiceView {
    pub qualified_name: Seq<char>,
    pub working_dir: Seq<char>,
    pub port: u16,
    pub on_start: Seq<char>,
    pub on_reload: Option<Seq<Seq<char>>>,
    pub on_stop: Option<Seq<Seq<char>>>,
}

/// The characters of each command of an optional list.
pub open spec fn commands_view(c: Option<Vec<String>>) -> Option<Seq<Seq<char>>> {
    match c {
        Some(v) => Some(v@.map_values(|s: String| s@)),
        None => None,
    }
}

impl View for Service {
    type V = ServiceView;

    open spec fn view(&self) -> ServiceView {
        ServiceView {
            qualified_name: self.qualified_name@,
            working_dir: self.working_dir@,
            port: self.port,
            on_start: self.on_start@,
            on_reload: commands_view(self.on_reload),
            on_stop: commands_view(self.on_stop),
        }
    }
}

/// One line `<key><value>` for each value, in order.
pub open spec fn unit_lines(key: Seq<char>, values: Seq<Seq<char>>) -> Seq<char>
    decreases values.len(),
{
    if values.len() == 0 {
        Seq::empty()
    } else {
        unit_lines(key, values.drop_last()) + key + values.last() + "\n"@
    }
}

/// The lines of an optional list of values; none where there is no list.
pub open spec fn optional_unit_lines(key: Seq<char>, values: Option<Seq<Seq<char>>>) -> Seq<char> {
    match values {
        Some(v) => unit_lines(key, v),
        None => Seq::empty(),
    }
}

/// The text of the systemd unit file that describes `service`, wanted by the
/// target `wanted_by`: an empty `[Unit]` section, a `[Service]` section with
/// its start, reload and stop commands and its working directory, and an
/// `[Install]` section.
pub open spec fn unit_file_of(service: ServiceView, wanted_by: Seq<char>) -> Seq<char> {
    "[Unit]\n\n[Service]\n"@ + unit_lines("ExecStart="@, seq![service.on_start])
        + optional_unit_lines("ExecReload="@, service.on_reload) + optional_unit_lines(
        "ExecStop="@,
        service.on_stop,
    ) + "WorkingDirectory="@ + service.working_dir + "\n\n[Install]\nWantedBy="@ + wanted_by
        + "\n"@
}

/// Relies on `Display` for `systemd_unit::Service`, `Unit`, `Exec` and
/// `Install`: with only these fields set, the text is the one `unit_file_of`
/// states (the unit's name is not written; unset options write nothing).
#[verifier::external_body]
fn render_unit(service: &Service, wanted_by: &str) -> (r: String)
    ensures
        r@ == unit_file_of(service@, wanted_by@),
{
    systemd_unit::Service {
        unit: systemd_unit::Unit { name: service.qualified_name.clone(), ..Default::default() },
        install: systemd_unit::Install {
            wanted_by: Some(vec![wanted_by.to_string()]),
            ..Default::default()
        },
        exec: systemd_unit::Exec {
            working_directory: Some(std::path::PathBuf::from(&service.working_dir)),
            ..Default::default()
        },
        exec_start: Some(vec![service.on_start.clone()]),
        exec_reload: service.on_reload.clone(),
        exec_stop: service.on_stop.clone(),
        ..Default::default()
    }.to_string()
}

/// The target that every service unit is wanted by: services start once the
/// system is up for several users with networking.
pub open spec fn default_target() -> Seq<char> {
    "multi-user.target"@
}

/// The default working directory of the service `name`.
pub open spec fn default_working_dir_spec(name: Seq<char>) -> Seq<char> {
    "/etc/dorc/service-data/"@ + name
}

/// The default start command of the service `name` listening on `port`.
pub open spec fn default_start_command_spec(name: Seq<char>, port: u16) -> Seq<char> {
    name + " -p "@ + decimal(port as nat)
}

/// The default stop command of the service `name`.
pub open spec fn default_stop_command_spec(name: Seq<char>) -> Seq<char> {
    "killall "@ + name
}

/// The text of the systemd unit file of the service whose view is `s`.
pub open spec fn service_unit_file(s: ServiceView) -> Seq<char> {
    unit_file_of(s, default_target())
}

impl Service {
    /// Builds a service from the answers given for it: its working directory,
    /// the text of its port, and its start, stop and reload commands. `None`
    /// where the port text is no port number.
    pub fn from_stdin(
        qualified_name: String,
        working_dir: String,
        port_text: &str,
        on_start: String,
        on_stop: String,
        on_reload: String,
    ) -> (r: Option<Service>)
        ensures
            port_of(port_text@) is None ==> r is None,
            port_of(port_text@) is Some ==> r is Some && r->Some_0@ == (ServiceView {
                qualified_name: qualified_name@,
                working_dir: working_dir@,
                port: port_of(port_text@)->Some_0,
                on_start: on_start@,
                on_reload: Some(seq![on_reload@]),
                on_stop: Some(seq![on_stop@]),
            }),
    {
        match crate::text::parse_port(port_text) {
            None => None,
            Some(port) => {
                let ghost reload = on_reload@;
                let ghost stop = on_stop@;
                let reloads = vec![on_reload];
                let stops = vec![on_stop];
                let s = Service {
                    qualified_name,
                    working_dir,
                    port,
                    on_start,
                    on_reload: Some(reloads),
                    on_stop: Some(stops),
                };
                assert(s@.on_reload->Some_0 =~= seq![reload]);
                assert(s@.on_stop->Some_0 =~= seq![stop]);
                Some(s)
            },
        }
    }

    /// The default working directory offered for the service `name`.
    pub fn default_working_dir(name: &str) -> (r: String)
        ensures
            r@ == default_working_dir_spec(name@),
    {
        let mut s = String::from_str("/etc/dorc/service-data/");
        s.append(name);
        s
    }

    /// The default start command offered for the service `name` on `port`.
    pub fn default_start_command(name: &str, port: u16) -> (r: String)
        ensures
            r@ == default_start_command_spec(name@, port),
    {
        let mut s = String::from_str(name);
        s.append(" -p ");
        push_decimal(&mut s, port);
        s
    }

    /// The default stop command offered for the service `name`.
    pub fn default_stop_command(name: &str) -> (r: String)
        ensures
            r@ == default_stop_command_spec(name@),
    {
        let mut s = String::from_str("killall ");
        s.append(name);
        s
    }

    /// The text of this service's systemd unit file.
    pub fn to_systemd_service(&self) -> (r: String)
        ensures
            r@ == service_unit_file(self@),
    {
        render_unit(self, "multi-user.target")
    }
}

} // verus!
