//! The daemon's registry of loaded applications and the decisions its control
//! loop makes for each command. Every command is applied whole, one at a
//! time; what needs the outside world (reading a configuration, rerouting a
//! live proxy, calling the supervisor, copying files) is handed back to the
//! caller as an `Action`.

use vstd::prelude::*;
use vstd::string::*;

use crate::app::{
    app_pathbuf, config_path, migration_plan, steps_view, swapped, App, AppView, MigrationStep,
    StepView,
};
use crate::command::{CommandView, Commands};

verus! {

/// One loaded application and the identity it is registered under.
pub struct RegistryEntry {
    pub identity: String,
    pub app: App,
}

/// What the caller does after the registry has handled a command.
#[derive(Debug, PartialEq, Eq)]
pub enum Action {
    /// Read and check the configuration at `identity`, bind its proxy, and on
    /// success register it with `Registry::load_app`.
    Load { identity: String },
    /// The application at `identity` was switched: route its proxy to `port`
    /// and save its configuration.
    Reroute { identity: String, port: u16 },
    /// Ask the supervisor to reload `unit`.
    Reload { unit: String },
    /// Deploy the release by running `steps` in order.
    Migrate { steps: Vec<MigrationStep> },
    /// No application is registered under `identity`; nothing changed.
    UnknownApp { identity: String },
}

/// The value of an `Action`.
pub enum ActionView {
    Load { identity: Seq<char> },
    Reroute { identity: Seq<char>, port: u16 },
    Reload { unit: Seq<char> },
    Migrate { steps: Seq<StepView> },
    UnknownApp { identity: Seq<char> },
}

impl View for Action {
    type V = ActionView;

    open spec fn view(&self) -> ActionView {
        match self {
            Action::Load { identity } => ActionView::Load { identity: identity@ },
            Action::Reroute { identity, port } => ActionView::Reroute {
                identity: identity@,
                port: *port,
            },
            Action::Reload { unit } => ActionView::Reload { unit: unit@ },
            Action::Migrate { steps } => ActionView::Migrate { steps: steps_view(steps@) },
            Action::UnknownApp { identity } => ActionView::UnknownApp { identity: identity@ },
        }
    }
}

/// The registry's contents: each registered identity and its application.
pub type RegistryView = Map<Seq<char>, AppView>;

/// `reg` after switching the application at `id`, if there is one.
pub open spec fn switch_spec(reg: RegistryView, id: Seq<char>) -> RegistryView {
    if reg.contains_key(id) {
        reg.insert(id, swapped(reg[id]))
    } else {
        reg
    }
}

/// The registry's next contents, and the action for the caller, when `reg`
/// receives `cmd`.
pub open spec fn handle_spec(reg: RegistryView, cmd: CommandView) -> (RegistryView, ActionView) {
    match cmd {
        CommandView::Load(name) => (reg, ActionView::Load { identity: config_path(name) }),
        CommandView::Switch(name) => {
            let id = config_path(name);
            if reg.contains_key(id) {
                (
                    switch_spec(reg, id),
                    ActionView::Reroute { identity: id, port: reg[id].inactive_service.port },
                )
            } else {
                (reg, ActionView::UnknownApp { identity: id })
            }
        },
        CommandView::Reload(name) => {
            let id = config_path(name);
            if reg.contains_key(id) {
                (reg, ActionView::Reload { unit: reg[id].active_service.qualified_name })
            } else {
                (reg, ActionView::UnknownApp { identity: id })
            }
        },
        CommandView::CopyRelease(id) => {
            if reg.contains_key(id) {
                (
                    reg,
                    ActionView::Migrate {
                        steps: migration_plan(reg[id], reg[id].inactive_service),
                    },
                )
            } else {
                (reg, ActionView::UnknownApp { identity: id })
            }
        },
    }
}

/// The loaded applications, keyed by identity (the path of their
/// configuration file). Owned by the control loop alone.
pub struct Registry {
    entries: Vec<RegistryEntry>,
    apps: Ghost<RegistryView>,
}

impl View for Registry {
    type V = RegistryView;

    closed spec fn view(&self) -> RegistryView {
        self.apps@
    }
}

impl Registry {
    /// Each entry is in the map with its application, each key of the map
    /// has an entry, and no identity has two entries.
    pub closed spec fn wf(&self) -> bool {
        &&& forall|i: int|
            0 <= i < self.entries@.len() ==> {
                &&& #[trigger] self.apps@.contains_key(self.entries@[i].identity@)
                &&& self.apps@[self.entries@[i].identity@] == self.entries@[i].app@
            }
        &&& forall|k: Seq<char>|
            #[trigger] self.apps@.contains_key(k) ==> exists|i: int|
                0 <= i < self.entries@.len() && #[trigger] self.entries@[i].identity@ == k
        &&& forall|i: int, j: int|
            0 <= i < self.entries@.len() && 0 <= j < self.entries@.len() && i != j
                ==> #[trigger] self.entries@[i].identity@ != #[trigger] self.entries@[j].identity@
    }

    /// An empty registry.
    pub fn new() -> (r: Registry)
        ensures
            r.wf(),
            r@ == RegistryView::empty(),
    {
        Registry { entries: Vec::new(), apps: Ghost(Map::empty()) }
    }

    fn find(&self, identity: &str) -> (r: Option<usize>)
        requires
            self.wf(),
        ensures
            match r {
                Some(i) => i < self.entries@.len() && self.entries@[i as int].identity@
                    == identity@,
                None => !self@.contains_key(identity@),
            },
    {
        let key = String::from_str(identity);
        let mut i: usize = 0;
        while i < self.entries.len()
            invariant
                self.wf(),
                i <= self.entries@.len(),
                key@ == identity@,
                forall|j: int| 0 <= j < i ==> self.entries@[j].identity@ != identity@,
            decreases self.entries@.len() - i,
        {
            if self.entries[i].identity == key {
                return Some(i);
            }
            i = i + 1;
        }
        None
    }

    /// Whether an application is registered under `identity`.
    pub fn contains(&self, identity: &str) -> (r: bool)
        requires
            self.wf(),
        ensures
            r == self@.contains_key(identity@),
    {
        self.find(identity).is_some()
    }

    /// The application registered under `identity`.
    pub fn get(&self, identity: &str) -> (r: Option<&App>)
        requires
            self.wf(),
        ensures
            r is Some == self@.contains_key(identity@),
            r is Some ==> r->Some_0@ == self@[identity@],
    {
        match self.find(identity) {
            Some(i) => {
                assert(self.apps@.contains_key(self.entries@[i as int].identity@));
                Some(&self.entries[i].app)
            },
            None => None,
        }
    }

    /// The number of registered applications.
    pub fn len(&self) -> (r: usize)
        requires
            self.wf(),
        ensures
            r as nat == self@.len(),
    {
        proof {
            self.lemma_len();
        }
        self.entries.len()
    }

    proof fn lemma_len(&self)
        requires
            self.wf(),
        ensures
            self@.len() == self.entries@.len(),
        decreases self.entries@.len(),
    {
        let ids = self.entries@.map_values(|e: RegistryEntry| e.identity@);
        assert(ids.no_duplicates()) by {
            assert forall|i: int, j: int|
                0 <= i < ids.len() && 0 <= j < ids.len() && i != j implies ids[i] != ids[j] by {
                assert(self.entries@[i].identity@ != self.entries@[j].identity@);
            }
        }
        assert(self@.dom() =~= ids.to_set()) by {
            assert forall|k: Seq<char>| self@.dom().contains(k) implies ids.to_set().contains(k) by {
                let i = choose|i: int|
                    0 <= i < self.entries@.len() && #[trigger] self.entries@[i].identity@ == k;
                assert(ids[i] == k);
            }
            assert forall|k: Seq<char>| ids.to_set().contains(k) implies self@.dom().contains(k) by {
                let i = choose|i: int| 0 <= i < ids.len() && ids[i] == k;
                assert(self.entries@[i].identity@ == k);
            }
        }
        ids.unique_seq_to_set();
    }

    /// The identities of all registered applications.
    pub fn identities(&self) -> (r: Vec<String>)
        requires
            self.wf(),
        ensures
            r@.len() == self@.len(),
            forall|i: int| 0 <= i < r@.len() ==> self@.contains_key(#[trigger] r@[i]@),
            forall|k: Seq<char>|
                self@.contains_key(k) ==> exists|i: int| 0 <= i < r@.len() && #[trigger] r@[i]@ == k,
    {
        proof {
            self.lemma_len();
        }
        let mut r: Vec<String> = Vec::new();
        let mut i: usize = 0;
        while i < self.entries.len()
            invariant
                self.wf(),
                i <= self.entries@.len(),
                r@.len() == i,
                forall|j: int| 0 <= j < i ==> #[trigger] r@[j]@ == self.entries@[j].identity@,
            decreases self.entries@.len() - i,
        {
            r.push(self.entries[i].identity.clone());
            i = i + 1;
        }
        proof {
            assert forall|j: int| 0 <= j < r@.len() implies self@.contains_key(#[trigger] r@[j]@) by {
                assert(self.apps@.contains_key(self.entries@[j].identity@));
            }
            assert forall|k: Seq<char>| self@.contains_key(k) implies exists|j: int|
                0 <= j < r@.len() && #[trigger] r@[j]@ == k by {
                let j = choose|j: int|
                    0 <= j < self.entries@.len() && #[trigger] self.entries@[j].identity@ == k;
                assert(r@[j]@ == k);
            }
        }
        r
    }

    /// Registers `app` under `identity`, in place of any application that
    /// was registered there. Returns the release directory to watch.
    pub fn load_app(&mut self, identity: String, app: App) -> (watch: String)
        requires
            old(self).wf(),
        ensures
            final(self).wf(),
            final(self)@ == old(self)@.insert(identity@, app@),
            watch@ == app.release_dir@,
    {
        let watch = app.release_dir.clone();
        let ghost id = identity@;
        let ghost value = app@;
        match self.find(identity.as_str()) {
            Some(i) => {
                self.entries.set(i, RegistryEntry { identity, app });
                self.apps = Ghost(self.apps@.insert(id, value));
                proof {
                    assert forall|k: Seq<char>| #[trigger] self.apps@.contains_key(k) implies exists|
                        j: int,
                    |
                        0 <= j < self.entries@.len() && #[trigger] self.entries@[j].identity@ == k by {
                        if k == id {
                            assert(self.entries@[i as int].identity@ == k);
                        } else {
                            assert(old(self).apps@.contains_key(k));
                            let j = choose|j: int|
                                0 <= j < old(self).entries@.len()
                                    && #[trigger] old(self).entries@[j].identity@ == k;
                            assert(self.entries@[j].identity@ == k);
                        }
                    }
                    assert forall|a: int, b: int|
                        0 <= a < self.entries@.len() && 0 <= b < self.entries@.len() && a
                            != b implies #[trigger] self.entries@[a].identity@
                        != #[trigger] self.entries@[b].identity@ by {
                        assert(old(self).entries@[a].identity@ != old(self).entries@[b].identity@);
                    }
                }
            },
            None => {
                self.entries.push(RegistryEntry { identity, app });
                self.apps = Ghost(self.apps@.insert(id, value));
                proof {
                    let n = old(self).entries@.len();
                    assert forall|k: Seq<char>| #[trigger] self.apps@.contains_key(k) implies exists|
                        j: int,
                    |
                        0 <= j < self.entries@.len() && #[trigger] self.entries@[j].identity@ == k by {
                        if k == id {
                            assert(self.entries@[n as int].identity@ == k);
                        } else {
                            assert(old(self).apps@.contains_key(k));
                            let j = choose|j: int|
                                0 <= j < old(self).entries@.len()
                                    && #[trigger] old(self).entries@[j].identity@ == k;
                            assert(self.entries@[j].identity@ == k);
                        }
                    }
                    assert forall|a: int, b: int|
                        0 <= a < self.entries@.len() && 0 <= b < self.entries@.len() && a
                            != b implies #[trigger] self.entries@[a].identity@
                        != #[trigger] self.entries@[b].identity@ by {
                        if a < n && b < n {
                            assert(old(self).entries@[a].identity@
                                != old(self).entries@[b].identity@);
                        } else if a < n {
                            assert(old(self).apps@.contains_key(old(self).entries@[a].identity@));
                        } else {
                            assert(old(self).apps@.contains_key(old(self).entries@[b].identity@));
                        }
                    }
                }
            },
        }
        watch
    }

    /// Exchanges the active and inactive service of the application at
    /// `identity` and returns the port its proxy must now route to: that of
    /// the new active service. Where nothing is registered under `identity`,
    /// nothing changes and the result is `None`.
    pub fn switch_active(&mut self, identity: &str) -> (r: Option<u16>)
        requires
            old(self).wf(),
        ensures
            final(self).wf(),
            final(self)@ == switch_spec(old(self)@, identity@),
            old(self)@.contains_key(identity@) ==> r == Some(
                final(self)@[identity@].active_service.port,
            ),
            old(self)@.contains_key(identity@) ==> r == Some(
                old(self)@[identity@].inactive_service.port,
            ),
            !old(self)@.contains_key(identity@) ==> r is None,
    {
        match self.find(identity) {
            Some(i) => {
                let ghost id = identity@;
                let ghost before = self.entries@[i as int].app@;
                self.entries[i].app.swap_active();
                self.apps = Ghost(self.apps@.insert(id, swapped(before)));
                let port = self.entries[i].app.active_service.port;
                proof {
                    assert forall|k: Seq<char>| #[trigger] self.apps@.contains_key(k) implies exists|
                        j: int,
                    |
                        0 <= j < self.entries@.len() && #[trigger] self.entries@[j].identity@ == k by {
                        assert(old(self).apps@.contains_key(k));
                        let j = choose|j: int|
                            0 <= j < old(self).entries@.len()
                                && #[trigger] old(self).entries@[j].identity@ == k;
                        assert(self.entries@[j].identity@ == k);
                    }
                    assert forall|a: int, b: int|
                        0 <= a < self.entries@.len() && 0 <= b < self.entries@.len() && a
                            != b implies #[trigger] self.entries@[a].identity@
                        != #[trigger] self.entries@[b].identity@ by {
                        assert(old(self).entries@[a].identity@ != old(self).entries@[b].identity@);
                    }
                }
                Some(port)
            },
            None => None,
        }
    }

    /// The action that reloads the active service of the application at
    /// `identity`; the registry is not changed.
    pub fn reload_app(&self, identity: String) -> (r: Action)
        requires
            self.wf(),
        ensures
            self@.contains_key(identity@) ==> r@ == (ActionView::Reload {
                unit: self@[identity@].active_service.qualified_name,
            }),
            !self@.contains_key(identity@) ==> r@ == (ActionView::UnknownApp {
                identity: identity@,
            }),
    {
        match self.find(identity.as_str()) {
            Some(i) => Action::Reload {
                unit: self.entries[i].app.active_service.qualified_name.clone(),
            },
            None => Action::UnknownApp { identity },
        }
    }

    /// The action that deploys the release of the application at `identity`
    /// into its inactive service; the registry is not changed.
    pub fn copy_release(&self, identity: String) -> (r: Action)
        requires
            self.wf(),
        ensures
            self@.contains_key(identity@) ==> r@ == (ActionView::Migrate {
                steps: migration_plan(self@[identity@], self@[identity@].inactive_service),
            }),
            !self@.contains_key(identity@) ==> r@ == (ActionView::UnknownApp {
                identity: identity@,
            }),
    {
        match self.find(identity.as_str()) {
            Some(i) => {
                let app = &self.entries[i].app;
                Action::Migrate { steps: app.migrate_service(&app.inactive_service) }
            },
            None => Action::UnknownApp { identity },
        }
    }

    /// Applies one command and returns what the caller must do next.
    pub fn handle(&mut self, command: Commands) -> (r: Action)
        requires
            old(self).wf(),
        ensures
            final(self).wf(),
            final(self)@ == handle_spec(old(self)@, command@).0,
            r@ == handle_spec(old(self)@, command@).1,
    {
        match command {
            Commands::Load(name) => Action::Load { identity: app_pathbuf(name) },
            Commands::Switch(name) => {
                let identity = app_pathbuf(name);
                match self.switch_active(identity.as_str()) {
                    Some(port) => Action::Reroute { identity, port },
                    None => Action::UnknownApp { identity },
                }
            },
            Commands::Reload(name) => self.reload_app(app_pathbuf(name)),
            Commands::CopyRelease(identity) => self.copy_release(identity),
        }
    }
}

} // verus!
