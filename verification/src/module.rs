use vstd::prelude::*;
use crate::channel::{sender_capacity, senders_share, share_sender};
use crate::config::{
    same_value, ConfigError, ConfigErrorView, ConfigValue, ModuleConfiguration, OverflowPolicy,
    ValueKind,
};
use crate::event::{Event, Signal};

verus! {

/// Where a module stands in its lifecycle.
#[derive(Debug, Clone, Copy, PartialEq, Eq, Structural)]
pub enum Phase {
    /// Built, and open to wiring: no `Start` was handled yet.
    Initialized,
    /// A background execution context is live.
    Running,
    /// Stopped; a new `Start` makes it run again.
    Stopped,
}

/// A capability that the module lacks.
#[derive(Debug, Clone, Copy, PartialEq, Eq, Structural)]
pub enum CapabilityError {
    /// The module has no inbound mailbox.
    NoMailbox,
    /// The module cannot emit.
    NoOutput,
}

/// Why an output was not registered.
#[derive(Debug, Clone, Copy, PartialEq, Eq)]
pub enum RegisterError {
    Capability(CapabilityError),
    /// The module has handled `Start` or `Stop`: its wiring is frozen.
    Frozen,
}

/// A failure that stays with the module it occurred in.
#[derive(Debug, Clone, Copy, PartialEq, Eq, Structural)]
pub enum RuntimeError {
    /// Every identifier for a background execution context was handed out.
    ContextsExhausted,
    /// An event was dropped: every receive end of the mailbox of the module
    /// in slot `target` is gone.
    MailboxClosed { target: usize },
    /// An event was dropped: the mailbox of the module in slot `target` was
    /// full, and the route does not wait.
    MailboxFull { target: usize },
}

/// What the driver of a module has to do once an event was handled: cancel
/// the context `cancel` and wait for its end, then spawn the context `spawn`.
#[derive(Debug, Clone, Copy, PartialEq, Eq)]
pub struct Directive {
    pub cancel: Option<u64>,
    pub spawn: Option<u64>,
}

/// One connection of a route: the slot of the module whose mailbox it leads
/// to, and what the sender does when that mailbox is full.
#[derive(Debug, Clone, Copy, PartialEq, Eq)]
pub struct Link {
    pub target: usize,
    pub overflow: OverflowPolicy,
}

/// Whether `to` carries on where `from` sends: the two belong to one channel,
/// `to` belongs to the channel of every send end that `from` belongs to the
/// channel of, and the two have the same capacity.
pub open spec fn continues(
    from: crossbeam_channel::Sender<Event>,
    to: crossbeam_channel::Sender<Event>,
) -> bool {
    &&& senders_share(from, to)
    &&& sender_capacity(to) == sender_capacity(from)
    &&& forall|first: crossbeam_channel::Sender<Event>|
        senders_share(first, from) ==> #[trigger] senders_share(first, to)
}

/// A send end of the mailbox that `link` leads to.
pub struct Endpoint {
    pub link: Link,
    pub tx: crossbeam_channel::Sender<Event>,
}

impl Endpoint {
    /// An endpoint for `link` that sends through `tx`.
    pub fn new(link: Link, tx: crossbeam_channel::Sender<Event>) -> (e: Endpoint)
        ensures
            e.link == link,
            e.tx == tx,
    {
        Endpoint { link, tx }
    }

    /// Another send end to the same mailbox: it has the link of this one and
    /// carries on where this one sends.
    pub fn share(&self) -> (e: Endpoint)
        ensures
            e.link == self.link,
            continues(self.tx, e.tx),
    {
        Endpoint { link: self.link, tx: share_sender(&self.tx) }
    }
}

/// The links of a list of endpoints, in order.
pub open spec fn links_of(endpoints: Seq<Endpoint>) -> Seq<Link> {
    Seq::new(endpoints.len(), |i: int| endpoints[i].link)
}

/// What a module is, as far as wiring and lifecycle go.
pub struct ModuleState {
    /// The module has an inbound mailbox.
    pub can_receive: bool,
    /// The module can emit to registered outputs.
    pub can_emit: bool,
    pub phase: Phase,
    /// The links it emits over, in order of registration.
    pub outputs: Seq<Link>,
    /// The background execution context that is live, if any.
    pub live: Option<u64>,
    /// How many contexts were handed out so far; the next one gets this number.
    pub issued: u64,
}

/// A freshly built module.
pub open spec fn initial_state(can_receive: bool, can_emit: bool) -> ModuleState {
    ModuleState {
        can_receive,
        can_emit,
        phase: Phase::Initialized,
        outputs: Seq::empty(),
        live: None,
        issued: 0,
    }
}

/// What holds of every module at all times: a context is live exactly while
/// the module runs, it was handed out earlier, and only a module that can emit
/// has outputs.
pub open spec fn state_valid(s: ModuleState) -> bool {
    &&& s.phase == Phase::Running <==> s.live is Some
    &&& s.live is Some ==> s.live->0 < s.issued
    &&& s.phase == Phase::Initialized ==> s.issued == 0
    &&& !s.can_emit ==> s.outputs.len() == 0
}

/// The answer of a module in state `s` to an event.
pub open spec fn response(s: ModuleState, signal: Signal) -> Result<Directive, RuntimeError> {
    match signal {
        Signal::Start => if s.issued == u64::MAX {
            Err(RuntimeError::ContextsExhausted)
        } else {
            Ok(Directive { cancel: s.live, spawn: Some(s.issued) })
        },
        Signal::Stop => Ok(Directive { cancel: s.live, spawn: None }),
        Signal::Data => Ok(Directive { cancel: None, spawn: None }),
    }
}

/// The state of a module that was in state `s` and has handled an event.
pub open spec fn after_event(s: ModuleState, signal: Signal) -> ModuleState {
    match signal {
        Signal::Start => if s.issued == u64::MAX {
            s
        } else {
            ModuleState {
                phase: Phase::Running,
                live: Some(s.issued),
                issued: (s.issued + 1) as u64,
                ..s
            }
        },
        Signal::Stop => ModuleState {
            phase: Phase::Stopped,
            live: None,
            outputs: Seq::empty(),
            ..s
        },
        Signal::Data => s,
    }
}

/// The answer of a module in state `s` to the registration of an output.
pub open spec fn registration(s: ModuleState) -> Result<(), RegisterError> {
    if !s.can_emit {
        Err(RegisterError::Capability(CapabilityError::NoOutput))
    } else if s.phase != Phase::Initialized {
        Err(RegisterError::Frozen)
    } else {
        Ok(())
    }
}

/// The state of a module that was in state `s` and was asked to register an
/// output over `link`.
pub open spec fn after_registration(s: ModuleState, link: Link) -> ModuleState {
    if registration(s) is Ok {
        ModuleState { outputs: s.outputs.push(link), ..s }
    } else {
        s
    }
}

/// The contexts that are live once the driver has followed `d`.
pub open spec fn follow(live: Set<u64>, d: Directive) -> Set<u64> {
    let kept = match d.cancel {
        Some(c) => live.remove(c),
        None => live,
    };
    match d.spawn {
        Some(c) => kept.insert(c),
        None => kept,
    }
}

/// The contexts of a module in state `s` that are live.
pub open spec fn live_set(s: ModuleState) -> Set<u64> {
    match s.live {
        Some(c) => set![c],
        None => Set::empty(),
    }
}

/// Why `config` does not give `key` a value of shape `kind`, if it does not.
pub open spec fn lacks(config: ModuleConfiguration, key: Seq<char>, kind: ValueKind) -> Option<
    ConfigErrorView,
> {
    match config.lookup(key) {
        None => Some(ConfigErrorView::MissingKey { key }),
        Some(v) => if v.kind_of() == kind {
            None
        } else {
            Some(ConfigErrorView::TypeMismatch { key, expected: kind, found: v.kind_of() })
        },
    }
}

/// The text that `config` gives to the mandatory key `key`.
pub fn mandatory_string(config: &ModuleConfiguration, key: &str) -> (r: Result<String, ConfigError>)
    ensures
        match r {
            Ok(s) => lacks(*config, key@, ValueKind::String) is None && same_value(
                ConfigValue::String(s),
                config.lookup(key@)->0,
            ),
            Err(e) => lacks(*config, key@, ValueKind::String) == Some(e@),
        },
{
    match config.get_mandatory(key) {
        Err(e) => Err(e),
        Ok(v) => match v.into_string() {
            Ok(s) => Ok(s),
            Err(found) => Err(
                ConfigError::TypeMismatch { key: key.to_owned(), expected: ValueKind::String, found },
            ),
        },
    }
}

/// The unsigned number that `config` gives to the mandatory key `key`.
pub fn mandatory_usize(config: &ModuleConfiguration, key: &str) -> (r: Result<usize, ConfigError>)
    ensures
        match r {
            Ok(n) => lacks(*config, key@, ValueKind::Usize) is None && same_value(
                ConfigValue::Usize(n),
                config.lookup(key@)->0,
            ),
            Err(e) => lacks(*config, key@, ValueKind::Usize) == Some(e@),
        },
{
    match config.get_mandatory(key) {
        Err(e) => Err(e),
        Ok(v) => match v.into_usize() {
            Ok(n) => Ok(n),
            Err(found) => Err(
                ConfigError::TypeMismatch { key: key.to_owned(), expected: ValueKind::Usize, found },
            ),
        },
    }
}

/// The lifecycle of one module: its phase and its background contexts.
pub struct Lifecycle {
    phase: Phase,
    live: Option<u64>,
    issued: u64,
}

impl Lifecycle {
    pub closed spec fn phase(&self) -> Phase {
        self.phase
    }

    pub closed spec fn live(&self) -> Option<u64> {
        self.live
    }

    pub closed spec fn issued(&self) -> u64 {
        self.issued
    }

    /// This lifecycle with the given capabilities and outputs.
    pub open spec fn with(&self, can_receive: bool, can_emit: bool, outputs: Seq<Link>) -> ModuleState {
        ModuleState {
            can_receive,
            can_emit,
            phase: self.phase(),
            outputs,
            live: self.live(),
            issued: self.issued(),
        }
    }

    /// The lifecycle of a freshly built module.
    pub fn new() -> (l: Lifecycle)
        ensures
            l.phase() == Phase::Initialized,
            l.live() is None,
            l.issued() == 0,
    {
        Lifecycle { phase: Phase::Initialized, live: None, issued: 0 }
    }

    /// Moves the lifecycle as `signal` asks and says what the driver has to do.
    pub fn apply(&mut self, signal: Signal) -> (r: Result<Directive, RuntimeError>)
        ensures
            forall|rx: bool, em: bool, out: Seq<Link>|
                #![trigger old(self).with(rx, em, out)]
                r == response(old(self).with(rx, em, out), signal),
            forall|rx: bool, em: bool, out: Seq<Link>|
                #![trigger old(self).with(rx, em, out)]
                final(self).with(rx, em, if signal == Signal::Stop { Seq::empty() } else { out })
                    == after_event(old(self).with(rx, em, out), signal),
    {
        match signal {
            Signal::Start => {
                if self.issued == u64::MAX {
                    Err(RuntimeError::ContextsExhausted)
                } else {
                    let d = Directive { cancel: self.live, spawn: Some(self.issued) };
                    self.live = Some(self.issued);
                    self.issued = self.issued + 1;
                    self.phase = Phase::Running;
                    Ok(d)
                }
            },
            Signal::Stop => {
                let d = Directive { cancel: self.live, spawn: None };
                self.live = None;
                self.phase = Phase::Stopped;
                Ok(d)
            },
            Signal::Data => Ok(Directive { cancel: None, spawn: None }),
        }
    }

    /// The phase that the module is in.
    pub fn current_phase(&self) -> (p: Phase)
        ensures
            p == self.phase(),
    {
        self.phase
    }

    /// Whether no `Start` or `Stop` was handled yet.
    pub fn is_open(&self) -> (b: bool)
        ensures
            b == (self.phase() == Phase::Initialized),
    {
        match self.phase {
            Phase::Initialized => true,
            _ => false,
        }
    }

    /// The context that is live, if any.
    pub fn current(&self) -> (c: Option<u64>)
        ensures
            c == self.live(),
    {
        self.live
    }
}

/// The capability set of every module: build from a configuration, handle an
/// event, expose the mailbox, register an output.
pub trait Module: Sized {
    /// The module as wiring and lifecycle see it.
    spec fn state(&self) -> ModuleState;

    /// What the implementation keeps true of itself.
    spec fn valid(&self) -> bool;

    /// Why the module cannot be built from `config`, if it cannot.
    spec fn refusal(config: ModuleConfiguration) -> Option<ConfigErrorView>;

    /// Every valid module is in a valid state.
    proof fn valid_state(&self)
        requires
            self.valid(),
        ensures
            state_valid(self.state()),
    ;

    /// Builds the module, or says what its configuration lacks. A module is
    /// built whole or not at all.
    fn initialize(config: &ModuleConfiguration) -> (r: Result<Self, ConfigError>)
        ensures
            match r {
                Ok(m) => Self::refusal(*config) is None && m.valid() && m.state() == initial_state(
                    m.state().can_receive,
                    m.state().can_emit,
                ),
                Err(e) => Self::refusal(*config) == Some(e@),
            },
    ;

    /// Handles one event and says what the driver has to do. `Start` makes the
    /// module run in a new context and has the one that was live cancelled;
    /// `Stop` has it cancelled and releases every output; `Data` changes nothing.
    fn handle_event(&mut self, event: Event) -> (r: Result<Directive, RuntimeError>)
        requires
            old(self).valid(),
        ensures
            final(self).valid(),
            r == response(old(self).state(), event.signal_of()),
            final(self).state() == after_event(old(self).state(), event.signal_of()),
    ;

    /// A send end of the module's mailbox; a module without a mailbox refuses.
    fn mailbox_address(&self) -> (r: Result<crossbeam_channel::Sender<Event>, CapabilityError>)
        requires
            self.valid(),
        ensures
            r is Ok <==> self.state().can_receive,
            r is Err ==> r->Err_0 == CapabilityError::NoMailbox,
    ;

    /// Adds `endpoint` to the module's outputs. A module that cannot emit
    /// refuses, and so does one whose wiring is frozen.
    fn register_output(&mut self, endpoint: Endpoint) -> (r: Result<(), RegisterError>)
        requires
            old(self).valid(),
        ensures
            final(self).valid(),
            r == registration(old(self).state()),
            final(self).state() == after_registration(old(self).state(), endpoint.link),
    ;
}

} // verus!
