//! Laws of the registry's state machine, proved over `handle_spec`, which
//! `Registry::handle` meets exactly.

use vstd::prelude::*;

use crate::app::{
    config_path, installed_bin_path, migration_plan, swapped, unit_path, AppView, StepView,
};
use crate::command::CommandView;
use crate::registry::{handle_spec, ActionView, RegistryView};
use crate::service::{service_unit_file, ServiceView};

verus! {

/// The identity that a command acts on.
pub open spec fn command_identity(cmd: CommandView) -> Seq<char> {
    match cmd {
        CommandView::Load(name) => config_path(name),
        CommandView::Switch(name) => config_path(name),
        CommandView::Reload(name) => config_path(name),
        CommandView::CopyRelease(id) => id,
    }
}

/// The step acts on `service` alone: it supervises its unit, or writes into
/// its working directory, its installed binary or its unit file.
pub open spec fn step_targets(step: StepView, service: ServiceView) -> bool {
    match step {
        StepView::Supervise { command, unit } => unit == service.qualified_name,
        StepView::CopyDirContents { from, to } => to == service.working_dir,
        StepView::CopyFile { from, to } => to == installed_bin_path(service.qualified_name),
        StepView::WriteFile { path, contents } => path == unit_path(service.qualified_name)
            && contents == service_unit_file(service),
    }
}

/// Switching an application twice gives back the registry it started from,
/// with the service that was active before the first switch active again.
pub proof fn lemma_double_switch(reg: RegistryView, name: Seq<char>)
    ensures
        handle_spec(handle_spec(reg, CommandView::Switch(name)).0, CommandView::Switch(name)).0
            == reg,
{
    let id = config_path(name);
    let once = handle_spec(reg, CommandView::Switch(name)).0;
    let twice = handle_spec(once, CommandView::Switch(name)).0;
    if reg.contains_key(id) {
        assert(swapped(swapped(reg[id])) == reg[id]);
        assert(twice =~= reg);
    }
}

/// A switch routes the application's proxy to the service that is active
/// once the switch is done: the one that was inactive before it.
pub proof fn lemma_switch_routes_to_new_active(reg: RegistryView, name: Seq<char>)
    requires
        reg.contains_key(config_path(name)),
    ensures
        ({
            let id = config_path(name);
            let (next, action) = handle_spec(reg, CommandView::Switch(name));
            &&& action == (ActionView::Reroute { identity: id, port: next[id].active_service.port })
            &&& next[id].active_service == reg[id].inactive_service
            &&& next[id].inactive_service == reg[id].active_service
        }),
{
}

/// A command on an identity that nothing is registered under changes
/// nothing, and says so; only `Load` asks for the application to be read.
pub proof fn lemma_unknown_identity_is_no_op(reg: RegistryView, cmd: CommandView)
    requires
        !reg.contains_key(command_identity(cmd)),
    ensures
        handle_spec(reg, cmd).0 == reg,
        !(cmd is Load) ==> handle_spec(reg, cmd).1 == (ActionView::UnknownApp {
            identity: command_identity(cmd),
        }),
{
}

/// Deploying a release leaves the registry, and so the active service,
/// exactly as it was; every step of the deployment acts on the inactive
/// service alone.
pub proof fn lemma_copy_release_spares_active(reg: RegistryView, id: Seq<char>)
    requires
        reg.contains_key(id),
    ensures
        handle_spec(reg, CommandView::CopyRelease(id)).0 == reg,
        handle_spec(reg, CommandView::CopyRelease(id)).1 is Migrate,
        ({
            let steps = handle_spec(reg, CommandView::CopyRelease(id)).1->Migrate_steps;
            forall|i: int|
                0 <= i < steps.len() ==> step_targets(#[trigger] steps[i], reg[id].inactive_service)
        }),
{
    let plan = migration_plan(reg[id], reg[id].inactive_service);
    assert forall|i: int| 0 <= i < plan.len() implies step_targets(
        #[trigger] plan[i],
        reg[id].inactive_service,
    ) by {
        if i == 0 {
        } else if i == 1 {
        } else if i == 2 {
        } else if i == 3 {
        } else if i == 4 {
        } else {
        }
    }
}

/// The step supervises `service`'s unit, or writes into its working
/// directory, its installed binary or its unit file.
pub open spec fn step_touches(step: StepView, service: ServiceView) -> bool {
    match step {
        StepView::Supervise { command, unit } => unit == service.qualified_name,
        StepView::CopyDirContents { from, to } => to == service.working_dir,
        StepView::CopyFile { from, to } => to == installed_bin_path(service.qualified_name),
        StepView::WriteFile { path, contents } => path == unit_path(service.qualified_name),
    }
}

proof fn lemma_paths_tell_names_apart(a: Seq<char>, b: Seq<char>)
    requires
        a != b,
    ensures
        installed_bin_path(a) != installed_bin_path(b),
        unit_path(a) != unit_path(b),
{
    let p = "/usr/local/bin/"@;
    if installed_bin_path(a) == installed_bin_path(b) {
        assert(installed_bin_path(a).subrange(p.len() as int, installed_bin_path(a).len() as int)
            =~= a);
        assert(installed_bin_path(b).subrange(p.len() as int, installed_bin_path(b).len() as int)
            =~= b);
    }
    let q = "/etc/systemd/system/"@;
    if unit_path(a) == unit_path(b) {
        assert(unit_path(a).len() == q.len() + a.len() + ".service"@.len());
        assert(unit_path(b).len() == q.len() + b.len() + ".service"@.len());
        assert(a.len() == b.len());
        assert(unit_path(a).subrange(q.len() as int, (q.len() + a.len()) as int) =~= a);
        assert(unit_path(b).subrange(q.len() as int, (q.len() + b.len()) as int) =~= b);
    }
}

/// Where an application's two services have different names and working
/// directories, no step of deploying a release supervises the active
/// service's unit or writes into its working directory, its installed binary
/// or its unit file.
pub proof fn lemma_copy_release_never_touches_active(reg: RegistryView, id: Seq<char>)
    requires
        reg.contains_key(id),
        reg[id].active_service.qualified_name != reg[id].inactive_service.qualified_name,
        reg[id].active_service.working_dir != reg[id].inactive_service.working_dir,
    ensures
        ({
            let steps = handle_spec(reg, CommandView::CopyRelease(id)).1->Migrate_steps;
            forall|i: int|
                0 <= i < steps.len() ==> !step_touches(#[trigger] steps[i], reg[id].active_service)
        }),
{
    let active = reg[id].active_service;
    let inactive = reg[id].inactive_service;
    lemma_paths_tell_names_apart(inactive.qualified_name, active.qualified_name);
    let plan = migration_plan(reg[id], inactive);
    assert forall|i: int| 0 <= i < plan.len() implies !step_touches(#[trigger] plan[i], active) by {
        if i == 0 {
        } else if i == 1 {
        } else if i == 2 {
        } else if i == 3 {
        } else if i == 4 {
        } else {
        }
    }
}

} // verus!
