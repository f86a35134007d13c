use vstd::prelude::*;
use crate::config::{str_eq, ConfigError, ConfigErrorView, ModuleConfiguration};
use crate::channel::senders_share;
use crate::event::{Event, Signal};
use crate::file_in::FileIn;
use crate::file_out::FileOut;
use crate::module::{CapabilityError, Directive, Endpoint, Module, ModuleState, RegisterError, RuntimeError};

verus! {

/// A module of one of the kinds that can be configured. The kind identifier
/// `source` stands for `FileIn`, `sink` for `FileOut`.
pub enum ModuleInstance {
    Source(FileIn),
    Sink(FileOut),
}

/// Whether a module built from `config` has a mailbox.
pub open spec fn can_receive_of(config: ModuleConfiguration) -> bool {
    config.uses@ != "source"@
}

/// Whether a module built from `config` can emit.
pub open spec fn can_emit_of(config: ModuleConfiguration) -> bool {
    config.uses@ == "source"@
}

/// Whether `e` sends into the mailbox of the module that its link names
/// among `modules`: that module is a sink, and `e` belongs to the channel of
/// the send end that the sink keeps.
pub open spec fn leads_to(modules: Seq<ModuleInstance>, e: Endpoint) -> bool {
    &&& e.link.target < modules.len()
    &&& modules[e.link.target as int] is Sink
    &&& senders_share(modules[e.link.target as int]->Sink_0.address(), e.tx)
}

/// Whether every endpoint that a module among `modules` holds sends into the
/// mailbox of the module that its link names.
pub open spec fn connected(modules: Seq<ModuleInstance>) -> bool {
    forall|m: int, j: int|
        0 <= m < modules.len() && 0 <= j < modules[m].endpoints().len() ==> leads_to(
            modules,
            #[trigger] modules[m].endpoints()[j],
        )
}

/// Modules stay connected where one of them changes, as long as it stays a
/// source or a sink, a sink keeps its send end, and a source holds the
/// endpoints it held, or none.
pub proof fn lemma_stays_connected(
    prior: Seq<ModuleInstance>,
    now: Seq<ModuleInstance>,
    i: int,
)
    requires
        connected(prior),
        0 <= i < prior.len(),
        now.len() == prior.len(),
        forall|x: int| 0 <= x < prior.len() && x != i ==> now[x] == prior[x],
        prior[i] is Sink ==> now[i] is Sink && now[i]->Sink_0.address()
            == prior[i]->Sink_0.address(),
        prior[i] is Source ==> now[i] is Source,
        now[i].endpoints() == prior[i].endpoints() || now[i].endpoints().len() == 0,
    ensures
        connected(now),
{
    assert forall|m: int, j: int|
        0 <= m < now.len() && 0 <= j < now[m].endpoints().len() implies leads_to(
        now,
        #[trigger] now[m].endpoints()[j],
    ) by {
        assert(leads_to(prior, prior[m].endpoints()[j]));
    }
}

impl ModuleInstance {
    /// The endpoints that the module holds: those of a source, none for a
    /// sink.
    pub open spec fn endpoints(&self) -> Seq<Endpoint> {
        match *self {
            ModuleInstance::Source(m) => m.endpoints(),
            ModuleInstance::Sink(_) => Seq::empty(),
        }
    }

    /// The source in this module, if it is one.
    pub fn as_source(&self) -> (r: Option<&FileIn>)
        ensures
            r is Some <==> self is Source,
            r is Some ==> *r->0 == self->Source_0,
    {
        match self {
            ModuleInstance::Source(m) => Some(m),
            ModuleInstance::Sink(_) => None,
        }
    }

    /// The sink in this module, if it is one.
    pub fn as_sink(&self) -> (r: Option<&FileOut>)
        ensures
            r is Some <==> self is Sink,
            r is Some ==> *r->0 == self->Sink_0,
    {
        match self {
            ModuleInstance::Source(_) => None,
            ModuleInstance::Sink(m) => Some(m),
        }
    }
}

impl Module for ModuleInstance {
    open spec fn state(&self) -> ModuleState {
        match *self {
            ModuleInstance::Source(m) => m.state(),
            ModuleInstance::Sink(m) => m.state(),
        }
    }

    open spec fn valid(&self) -> bool {
        match *self {
            ModuleInstance::Source(m) => m.valid(),
            ModuleInstance::Sink(m) => m.valid(),
        }
    }

    open spec fn refusal(config: ModuleConfiguration) -> Option<ConfigErrorView> {
        if config.uses@ == "source"@ {
            FileIn::refusal(config)
        } else if config.uses@ == "sink"@ {
            FileOut::refusal(config)
        } else {
            Some(ConfigErrorView::UnknownKind { kind: config.uses@ })
        }
    }

    proof fn valid_state(&self) {
        match *self {
            ModuleInstance::Source(m) => m.valid_state(),
            ModuleInstance::Sink(m) => m.valid_state(),
        }
    }

    /// Builds the module that the kind identifier of `config` names.
    fn initialize(config: &ModuleConfiguration) -> (r: Result<Self, ConfigError>)
        ensures
            r is Ok ==> r->Ok_0.state().can_receive == can_receive_of(*config)
                && r->Ok_0.state().can_emit == can_emit_of(*config)
                && r->Ok_0.endpoints().len() == 0,
    {
        if str_eq(config.uses.as_str(), "source") {
            match FileIn::initialize(config) {
                Ok(m) => Ok(ModuleInstance::Source(m)),
                Err(e) => Err(e),
            }
        } else if str_eq(config.uses.as_str(), "sink") {
            match FileOut::initialize(config) {
                Ok(m) => Ok(ModuleInstance::Sink(m)),
                Err(e) => Err(e),
            }
        } else {
            Err(ConfigError::UnknownKind { kind: config.uses.clone() })
        }
    }

    /// A source stays a source and a sink a sink. A sink keeps both ends of
    /// its mailbox; a source releases its endpoints on `Stop` and keeps them
    /// on any other event.
    fn handle_event(&mut self, event: Event) -> (r: Result<Directive, RuntimeError>)
        ensures
            (*old(self)) is Sink ==> {
                &&& (*final(self)) is Sink
                &&& (*final(self))->Sink_0.address() == (*old(self))->Sink_0.address()
                &&& (*final(self))->Sink_0.inbox() == (*old(self))->Sink_0.inbox()
            },
            (*old(self)) is Source ==> (*final(self)) is Source,
            final(self).endpoints() == if event.signal_of() == Signal::Stop {
                Seq::<Endpoint>::empty()
            } else {
                old(self).endpoints()
            },
    {
        match self {
            ModuleInstance::Source(m) => m.handle_event(event),
            ModuleInstance::Sink(m) => m.handle_event(event),
        }
    }

    /// Only a sink gives a send end, and it belongs to the channel of the
    /// send end that the sink keeps.
    fn mailbox_address(&self) -> (r: Result<crossbeam_channel::Sender<Event>, CapabilityError>)
        ensures
            r is Ok <==> self is Sink,
            r is Ok ==> senders_share(self->Sink_0.address(), r->Ok_0),
    {
        match self {
            ModuleInstance::Source(m) => m.mailbox_address(),
            ModuleInstance::Sink(m) => m.mailbox_address(),
        }
    }

    /// Only a source keeps `endpoint`, behind those it has; a sink stays as
    /// it is.
    fn register_output(&mut self, endpoint: Endpoint) -> (r: Result<(), RegisterError>)
        ensures
            r is Ok ==> (*old(self)) is Source,
            (*old(self)) is Source ==> (*final(self)) is Source,
            (*old(self)) is Sink ==> *final(self) == *old(self),
            final(self).endpoints() == if r is Ok {
                old(self).endpoints().push(endpoint)
            } else {
                old(self).endpoints()
            },
    {
        match self {
            ModuleInstance::Source(m) => m.register_output(endpoint),
            ModuleInstance::Sink(m) => m.register_output(endpoint),
        }
    }
}

} // verus!
