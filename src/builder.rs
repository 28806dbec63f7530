//! The capability builder: plugins, a setup step and commands accumulated
//! under a build mode, then frozen into a host configuration once.

use vstd::prelude::*;
use crate::commands::{
    Command, CommandRegistry, DispatchError, DuplicateCommand, dispatch_spec, greeting,
    keys_unique, lemma_greet_dispatch, lookup,
};
use crate::toggle::{DebugToggle, DebugPanelState};

verus! {

/// Whether the process was built for development or for production.
#[derive(Clone, Copy, Debug, PartialEq, Eq, Structural)]
pub enum BuildMode {
    Debug,
    Release,
}

/// The least severe level that the logging capability records.
#[derive(Clone, Copy, Debug, PartialEq, Eq, Structural)]
pub enum LogLevel {
    Error,
    Warn,
    Info,
    Debug,
    Trace,
}

/// An optional module attached to the host.
#[derive(Clone, Copy, Debug, PartialEq, Eq, Structural)]
pub enum Capability {
    /// Records log lines at `LogLevel` and above.
    Logging(LogLevel),
    /// Listens for global key combinations.
    GlobalShortcut,
}

/// The global key combination bound to the developer panel toggle.
#[derive(Clone, Copy, Debug, PartialEq, Eq, Structural)]
pub enum Hotkey {
    F12,
}

/// One piece of work of the setup step, run after all plugins are attached
/// and before the run loop starts.
#[derive(Clone, Copy, Debug, PartialEq, Eq, Structural)]
pub enum SetupAction {
    /// Attaches a capability through the running application.
    AttachPlugin(Capability),
    /// Claims a global key combination.
    RegisterHotkey(Hotkey),
}

/// Why a builder produced no configuration.
#[derive(Clone, Copy, Debug, PartialEq, Eq, Structural)]
pub enum BuildError {
    /// The builder was already turned into a configuration.
    AlreadyConsumed,
    /// Two commands were registered under one name.
    DuplicateCommand,
}

impl Capability {
    /// May be attached under `mode`.
    pub open spec fn allowed_in(self, mode: BuildMode) -> bool {
        mode == BuildMode::Debug || !self.is_debug_only()
    }

    /// Exists only for development tooling.
    pub open spec fn is_debug_only(self) -> bool {
        match self {
            Capability::Logging(_) => true,
            Capability::GlobalShortcut => true,
        }
    }

    /// Whether the capability may be attached under `mode`.
    pub fn permitted_in(self, mode: BuildMode) -> (r: bool)
        ensures
            r == self.allowed_in(mode),
    {
        match mode {
            BuildMode::Debug => true,
            BuildMode::Release => match self {
                Capability::Logging(_) => false,
                Capability::GlobalShortcut => false,
            },
        }
    }
}

impl Hotkey {
    /// The accelerator text of the key combination.
    pub fn accelerator(self) -> (r: String)
        ensures
            r@ == self.accelerator_spec(),
    {
        match self {
            Hotkey::F12 => String::from_str("F12"),
        }
    }

    pub open spec fn accelerator_spec(self) -> Seq<char> {
        match self {
            Hotkey::F12 => "F12"@,
        }
    }
}

impl SetupAction {
    /// Exists only for development tooling.
    pub open spec fn is_debug_only(self) -> bool {
        match self {
            SetupAction::AttachPlugin(c) => c.is_debug_only(),
            SetupAction::RegisterHotkey(_) => true,
        }
    }

    /// Whether the action may run under `mode`.
    pub fn permitted_in(self, mode: BuildMode) -> (r: bool)
        ensures
            r == (mode == BuildMode::Debug || !self.is_debug_only()),
    {
        match self {
            SetupAction::AttachPlugin(c) => c.permitted_in(mode),
            SetupAction::RegisterHotkey(_) => mode == BuildMode::Debug,
        }
    }
}

/// Nothing in `plugins` is debug-only unless `mode` is `Debug`.
pub open spec fn plugins_fit(mode: BuildMode, plugins: Seq<Capability>) -> bool {
    mode == BuildMode::Release ==> forall|i: int|
        0 <= i < plugins.len() ==> !(#[trigger] plugins[i]).is_debug_only()
}

/// Nothing in `setup` is debug-only unless `mode` is `Debug`.
pub open spec fn setup_fits(mode: BuildMode, setup: Seq<SetupAction>) -> bool {
    mode == BuildMode::Release ==> forall|i: int|
        0 <= i < setup.len() ==> !(#[trigger] setup[i]).is_debug_only()
}

/// Accumulates capabilities, a setup step and commands before the host runs.
pub struct HostBuilder {
    mode: BuildMode,
    plugins: Vec<Capability>,
    setup: Vec<SetupAction>,
    commands: Vec<(String, Command)>,
    consumed: bool,
}

/// The frozen description of the host that the run loop serves.
pub struct HostConfiguration {
    mode: BuildMode,
    plugins: Vec<Capability>,
    setup: Vec<SetupAction>,
    commands: CommandRegistry,
}

impl HostBuilder {
    pub closed spec fn spec_mode(&self) -> BuildMode {
        self.mode
    }

    pub closed spec fn spec_plugins(&self) -> Seq<Capability> {
        self.plugins@
    }

    pub closed spec fn spec_setup(&self) -> Seq<SetupAction> {
        self.setup@
    }

    pub closed spec fn spec_commands(&self) -> Seq<(String, Command)> {
        self.commands@
    }

    pub closed spec fn spec_consumed(&self) -> bool {
        self.consumed
    }

    /// Debug-only capabilities and setup work are absent in `Release`.
    pub open spec fn wf(&self) -> bool {
        plugins_fit(self.spec_mode(), self.spec_plugins()) && setup_fits(
            self.spec_mode(),
            self.spec_setup(),
        )
    }

    /// What `build` refuses with, if anything.
    pub open spec fn build_error_spec(&self) -> Option<BuildError> {
        if self.spec_consumed() {
            Some(BuildError::AlreadyConsumed)
        } else if !keys_unique(self.spec_commands()) {
            Some(BuildError::DuplicateCommand)
        } else {
            None
        }
    }

    /// An empty builder for `mode`.
    pub fn new(mode: BuildMode) -> (r: Self)
        ensures
            r.wf(),
            r.spec_mode() == mode,
            r.spec_plugins() == Seq::<Capability>::empty(),
            r.spec_setup() == Seq::<SetupAction>::empty(),
            r.spec_commands() == Seq::<(String, Command)>::empty(),
            !r.spec_consumed(),
    {
        HostBuilder {
            mode,
            plugins: Vec::new(),
            setup: Vec::new(),
            commands: Vec::new(),
            consumed: false,
        }
    }

    /// The build mode that gates the debug-only capabilities.
    pub fn mode(&self) -> (r: BuildMode)
        ensures
            r == self.spec_mode(),
    {
        self.mode
    }

    /// Whether `build` has already been called.
    pub fn is_consumed(&self) -> (r: bool)
        ensures
            r == self.spec_consumed(),
    {
        self.consumed
    }

    /// Attaches `capability`, unless it is debug-only and the mode is
    /// `Release`, in which case the builder is returned as it was.
    pub fn with_plugin(self, capability: Capability) -> (r: Self)
        requires
            self.wf(),
        ensures
            r.wf(),
            r.spec_plugins() == (if capability.allowed_in(self.spec_mode()) {
                self.spec_plugins().push(capability)
            } else {
                self.spec_plugins()
            }),
            r.spec_mode() == self.spec_mode(),
            r.spec_setup() == self.spec_setup(),
            r.spec_commands() == self.spec_commands(),
            r.spec_consumed() == self.spec_consumed(),
    {
        let mut b = self;
        if capability.permitted_in(b.mode) {
            b.plugins.push(capability);
        }
        b
    }

    /// Sets the setup step to the actions of `actions` that the mode permits,
    /// in their order, replacing any earlier setup step.
    pub fn setup(self, actions: Vec<SetupAction>) -> (r: Self)
        requires
            self.wf(),
        ensures
            r.wf(),
            r.spec_setup() == actions@.filter(
                |a: SetupAction| self.spec_mode() == BuildMode::Debug || !a.is_debug_only(),
            ),
            r.spec_mode() == self.spec_mode(),
            r.spec_plugins() == self.spec_plugins(),
            r.spec_commands() == self.spec_commands(),
            r.spec_consumed() == self.spec_consumed(),
    {
        let mut b = self;
        let ghost keep = |a: SetupAction| b.mode == BuildMode::Debug || !a.is_debug_only();
        let mut kept: Vec<SetupAction> = Vec::new();
        let mut i: usize = 0;
        while i < actions.len()
            invariant
                i <= actions@.len(),
                keep == (|a: SetupAction| b.mode == BuildMode::Debug || !a.is_debug_only()),
                kept@ == actions@.subrange(0, i as int).filter(keep),
            decreases actions@.len() - i,
        {
            let a = actions[i];
            proof {
                reveal(Seq::filter);
                assert(actions@.subrange(0, i as int + 1).drop_last() =~= actions@.subrange(
                    0,
                    i as int,
                ));
            }
            if a.permitted_in(b.mode) {
                kept.push(a);
            }
            i = i + 1;
        }
        proof {
            assert(actions@.subrange(0, actions@.len() as int) =~= actions@);
            assert forall|j: int| 0 <= j < kept@.len() implies keep(#[trigger] kept@[j]) by {
                actions@.lemma_filter_pred(keep, j);
            }
        }
        b.setup = kept;
        b
    }

    /// Registers `handler` under `name`; a name registered twice makes
    /// `build` fail.
    pub fn register(self, name: String, handler: Command) -> (r: Self)
        requires
            self.wf(),
        ensures
            r.wf(),
            r.spec_commands() == self.spec_commands().push((name, handler)),
            r.spec_mode() == self.spec_mode(),
            r.spec_plugins() == self.spec_plugins(),
            r.spec_setup() == self.spec_setup(),
            r.spec_consumed() == self.spec_consumed(),
    {
        let mut b = self;
        b.commands.push((name, handler));
        b
    }

    /// Freezes the builder into a configuration. Refused with
    /// `AlreadyConsumed` on a builder that was built before, and with
    /// `DuplicateCommand` when two commands share a name. Either way the
    /// builder is consumed afterwards.
    pub fn build(&mut self) -> (r: Result<HostConfiguration, BuildError>)
        requires
            old(self).wf(),
        ensures
            final(self).wf(),
            final(self).spec_consumed(),
            final(self).spec_mode() == old(self).spec_mode(),
            match r {
                Ok(c) => {
                    &&& old(self).build_error_spec() is None
                    &&& c.wf()
                    &&& c.spec_mode() == old(self).spec_mode()
                    &&& c.spec_plugins() == old(self).spec_plugins()
                    &&& c.spec_setup() == old(self).spec_setup()
                    &&& c.spec_commands()@ == old(self).spec_commands()
                },
                Err(e) => old(self).build_error_spec() == Some(e),
            },
    {
        if self.consumed {
            return Err(BuildError::AlreadyConsumed);
        }
        self.consumed = true;
        let mut plugins: Vec<Capability> = Vec::new();
        let mut setup: Vec<SetupAction> = Vec::new();
        let mut commands: Vec<(String, Command)> = Vec::new();
        std::mem::swap(&mut self.plugins, &mut plugins);
        std::mem::swap(&mut self.setup, &mut setup);
        std::mem::swap(&mut self.commands, &mut commands);
        let mut registry = CommandRegistry::new();
        let mut i: usize = 0;
        while i < commands.len()
            invariant
                i <= commands@.len(),
                registry.wf(),
                registry@ == commands@.subrange(0, i as int),
                commands@ == old(self).spec_commands(),
                !old(self).spec_consumed(),
                self.wf(),
                self.consumed,
                self.mode == old(self).spec_mode(),
            decreases commands@.len() - i,
        {
            let name = commands[i].0.clone();
            match registry.register(name, commands[i].1) {
                Ok(()) => {},
                Err(DuplicateCommand) => {
                    proof {
                        let j = choose|j: int|
                            0 <= j < registry@.len() && #[trigger] registry@[j].0@ == name@;
                        assert(commands@[j].0@ == commands@[i as int].0@);
                    }
                    return Err(BuildError::DuplicateCommand);
                },
            }
            assert(registry@ =~= commands@.subrange(0, i as int + 1));
            i = i + 1;
        }
        assert(commands@.subrange(0, commands@.len() as int) =~= commands@);
        Ok(HostConfiguration { mode: self.mode, plugins, setup, commands: registry })
    }
}

impl HostConfiguration {
    pub closed spec fn spec_mode(&self) -> BuildMode {
        self.mode
    }

    pub closed spec fn spec_plugins(&self) -> Seq<Capability> {
        self.plugins@
    }

    pub closed spec fn spec_setup(&self) -> Seq<SetupAction> {
        self.setup@
    }

    pub closed spec fn spec_commands(&self) -> CommandRegistry {
        self.commands
    }

    /// Commands are bound once each; debug-only work is absent in `Release`.
    pub open spec fn wf(&self) -> bool {
        &&& plugins_fit(self.spec_mode(), self.spec_plugins())
        &&& setup_fits(self.spec_mode(), self.spec_setup())
        &&& self.spec_commands().wf()
    }

    /// The build mode the configuration was made for.
    pub fn mode(&self) -> (r: BuildMode)
        ensures
            r == self.spec_mode(),
    {
        self.mode
    }

    /// The capabilities attached before setup, in order of attachment.
    pub fn plugins(&self) -> (r: &Vec<Capability>)
        ensures
            r@ == self.spec_plugins(),
    {
        &self.plugins
    }

    /// The work of the setup step, in order.
    pub fn setup_actions(&self) -> (r: &Vec<SetupAction>)
        ensures
            r@ == self.spec_setup(),
    {
        &self.setup
    }

    /// The registered commands.
    pub fn commands(&self) -> (r: &CommandRegistry)
        ensures
            *r == self.spec_commands(),
    {
        &self.commands
    }

    /// Gives up the configuration for its command table, which the run loop
    /// serves requests from.
    pub fn into_commands(self) -> (r: CommandRegistry)
        ensures
            r == self.spec_commands(),
    {
        self.commands
    }

    /// The hotkey that the setup step claims, if it claims one.
    pub fn hotkey(&self) -> (r: Option<Hotkey>)
        ensures
            match r {
                Some(h) => self.spec_setup().contains(SetupAction::RegisterHotkey(h)),
                None => !claims_hotkey(self.spec_setup()),
            },
    {
        let mut i: usize = 0;
        while i < self.setup.len()
            invariant
                i <= self.setup@.len(),
                forall|j: int| 0 <= j < i ==> !(#[trigger] self.setup@[j] is RegisterHotkey),
            decreases self.setup@.len() - i,
        {
            match self.setup[i] {
                SetupAction::RegisterHotkey(h) => {
                    assert(self.setup@[i as int] == SetupAction::RegisterHotkey(h));
                    return Some(h);
                },
                SetupAction::AttachPlugin(_) => {},
            }
            i = i + 1;
        }
        None
    }

    /// The developer panel toggle, in its initial state, for a `Debug`
    /// configuration; none in `Release`.
    pub fn debug_toggle(&self) -> (r: Option<DebugToggle>)
        ensures
            r is Some <==> self.spec_mode() == BuildMode::Debug,
            r matches Some(t) ==> t.spec_state() == DebugPanelState::Closed,
    {
        match self.mode {
            BuildMode::Debug => Some(DebugToggle::new()),
            BuildMode::Release => None,
        }
    }
}

/// Some action of `setup` claims a hotkey.
pub open spec fn claims_hotkey(setup: Seq<SetupAction>) -> bool {
    exists|i: int| 0 <= i < setup.len() && #[trigger] setup[i] is RegisterHotkey
}

/// The name the greeting command is served under.
pub open spec fn greet_name() -> Seq<char> {
    "greet"@
}

/// The configuration of this host for `mode`: in `Debug` the global-shortcut
/// capability is attached, and setup attaches logging at `Info` and claims
/// `F12`; in `Release` neither. Either way `greet` is the one command.
pub fn configure_host(mode: BuildMode) -> (r: HostConfiguration)
    ensures
        r.wf(),
        r.spec_mode() == mode,
        mode == BuildMode::Debug ==> r.spec_plugins() == seq![Capability::GlobalShortcut],
        mode == BuildMode::Debug ==> r.spec_setup() == seq![
            SetupAction::AttachPlugin(Capability::Logging(LogLevel::Info)),
            SetupAction::RegisterHotkey(Hotkey::F12),
        ],
        mode == BuildMode::Release ==> r.spec_plugins() == Seq::<Capability>::empty(),
        mode == BuildMode::Release ==> r.spec_setup() == Seq::<SetupAction>::empty(),
        r.spec_commands()@.len() == 1,
        r.spec_commands()@[0].0@ == greet_name(),
        r.spec_commands()@[0].1 == Command::Greet,
{
    let mut actions: Vec<SetupAction> = Vec::new();
    actions.push(SetupAction::AttachPlugin(Capability::Logging(LogLevel::Info)));
    actions.push(SetupAction::RegisterHotkey(Hotkey::F12));
    let ghost a = actions@;
    let mut b = HostBuilder::new(mode).with_plugin(Capability::GlobalShortcut).setup(actions).register(
        String::from_str("greet"),
        Command::Greet,
    );
    proof {
        let keep = |x: SetupAction| mode == BuildMode::Debug || !x.is_debug_only();
        reveal_with_fuel(Seq::filter, 3);
        assert(a.drop_last().drop_last() =~= Seq::<SetupAction>::empty());
        assert(a.drop_last() =~= seq![a[0]]);
        if mode == BuildMode::Debug {
            assert(a.filter(keep) =~= a);
        } else {
            assert(a.filter(keep) =~= Seq::<SetupAction>::empty());
        }
        assert(keys_unique(b.spec_commands()));
    }
    match b.build() {
        Ok(c) => c,
        Err(_) => vstd::pervasive::unreached(),
    }
}

/// A builder holding two commands under one name is refused with
/// `DuplicateCommand` when it is built, unless it was built before.
pub proof fn lemma_duplicate_name_fails_build(b: HostBuilder, i: int, j: int)
    requires
        !b.spec_consumed(),
        0 <= i < b.spec_commands().len(),
        0 <= j < b.spec_commands().len(),
        i != j,
        b.spec_commands()[i].0@ == b.spec_commands()[j].0@,
    ensures
        b.build_error_spec() == Some(BuildError::DuplicateCommand),
{
}

/// A builder that was built once refuses every later build with
/// `AlreadyConsumed`.
pub proof fn lemma_consumed_builder_refuses(b: HostBuilder)
    requires
        b.spec_consumed(),
    ensures
        b.build_error_spec() == Some(BuildError::AlreadyConsumed),
{
}

/// A `Release` configuration attaches no debug-only capability, runs no
/// debug-only setup work and claims no hotkey.
pub proof fn lemma_release_has_no_debug_tooling(c: HostConfiguration)
    requires
        c.wf(),
        c.spec_mode() == BuildMode::Release,
    ensures
        forall|i: int| 0 <= i < c.spec_plugins().len() ==> !(#[trigger] c.spec_plugins()[i]).is_debug_only(),
        forall|i: int| 0 <= i < c.spec_setup().len() ==> !(#[trigger] c.spec_setup()[i]).is_debug_only(),
        !claims_hotkey(c.spec_setup()),
{
    if claims_hotkey(c.spec_setup()) {
        let i = choose|i: int| 0 <= i < c.spec_setup().len() && #[trigger] c.spec_setup()[i] is RegisterHotkey;
        assert(c.spec_setup()[i].is_debug_only());
    }
}

/// The configuration of this host serves `greet` with a single `name` field
/// by the greeting for that name, and answers any other name with
/// `UnknownCommand`.
pub proof fn lemma_host_dispatch(
    c: HostConfiguration,
    name: Seq<char>,
    args: Seq<(String, String)>,
)
    requires
        c.spec_commands()@.len() == 1,
        c.spec_commands()@[0].0@ == greet_name(),
        c.spec_commands()@[0].1 == Command::Greet,
    ensures
        name == greet_name() && args.len() == 1 && args[0].0@ == "name"@ ==> dispatch_spec(
            c.spec_commands()@,
            name,
            args,
        ) == Ok::<Seq<char>, DispatchError>(greeting(args[0].1@)),
        name != greet_name() ==> dispatch_spec(c.spec_commands()@, name, args) == Err::<
            Seq<char>,
            DispatchError,
        >(DispatchError::UnknownCommand),
{
    let e = c.spec_commands()@;
    assert(e.drop_first() =~= Seq::<(String, Command)>::empty());
    assert(lookup(e.drop_first(), name) is None);
    if name == greet_name() && args.len() == 1 && args[0].0@ == "name"@ {
        lemma_greet_dispatch(e, args);
    }
}

} // verus!
