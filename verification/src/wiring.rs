use vstd::prelude::*;
use crate::config::{position, position_from, str_eq, ConfigErrorView, Configuration};
use crate::module::{
    initial_state, CapabilityError, Link, Module, ModuleState, RegisterError,
};
use crate::registry::{can_emit_of, can_receive_of, ModuleInstance};

verus! {

/// What is wrong with a module that a route names.
#[derive(Debug, Clone, Copy, PartialEq, Eq, Structural)]
pub enum WiringFault {
    /// No configured module bears the identifier.
    UnknownModule,
    /// The route names the module as a sink, and it has no mailbox.
    NoMailbox,
    /// The route names the module as a source, and it cannot emit.
    NoOutput,
    /// The module's wiring is frozen.
    Frozen,
}

/// A route that cannot be wired, with the identifier that it stumbled on.
#[derive(Debug, PartialEq, Eq)]
pub struct WiringError {
    pub route: String,
    pub module: String,
    pub fault: WiringFault,
}

/// `WiringError` over sequences of characters.
pub struct WiringErrorView {
    pub route: Seq<char>,
    pub module: Seq<char>,
    pub fault: WiringFault,
}

impl View for WiringError {
    type V = WiringErrorView;

    open spec fn view(&self) -> WiringErrorView {
        WiringErrorView { route: self.route@, module: self.module@, fault: self.fault }
    }
}

/// The wiring fault that stands for a module's refusal of an output.
pub fn fault_of(e: RegisterError) -> (f: WiringFault)
    ensures
        f == match e {
            RegisterError::Capability(CapabilityError::NoMailbox) => WiringFault::NoMailbox,
            RegisterError::Capability(CapabilityError::NoOutput) => WiringFault::NoOutput,
            RegisterError::Frozen => WiringFault::Frozen,
        },
{
    match e {
        RegisterError::Capability(CapabilityError::NoMailbox) => WiringFault::NoMailbox,
        RegisterError::Capability(CapabilityError::NoOutput) => WiringFault::NoOutput,
        RegisterError::Frozen => WiringFault::Frozen,
    }
}

/// The slot of the first configured module that bears `id`.
pub fn find_module(config: &Configuration, id: &str) -> (r: Option<usize>)
    ensures
        match r {
            Some(j) => position(config.ids(), id@) == Some(j as int) && j < config.modules@.len(),
            None => position(config.ids(), id@) is None,
        },
{
    let mut j: usize = 0;
    while j < config.modules.len()
        invariant
            0 <= j <= config.modules@.len(),
            position_from(config.ids(), id@, j as int) == position(config.ids(), id@),
        decreases config.modules@.len() - j,
    {
        if str_eq(config.modules[j].id.as_str(), id) {
            return Some(j);
        }
        j += 1;
    }
    None
}

/// Why the module in slot `n` is not built, if it is not: its identifier is
/// empty, or an earlier module bears it, or its configuration is refused.
pub open spec fn module_fault(config: Configuration, n: int) -> Option<ConfigErrorView> {
    let id = config.modules@[n].id@;
    if id.len() == 0 {
        Some(ConfigErrorView::EmptyId)
    } else if position(config.ids(), id) != Some(n) {
        Some(ConfigErrorView::DuplicateId { id })
    } else {
        ModuleInstance::refusal(config.modules@[n].config)
    }
}

/// The first module at or after slot `from` that is not built.
pub open spec fn first_refused_from(config: Configuration, from: int) -> Option<int>
    decreases config.modules@.len() - from,
{
    if from < 0 || from >= config.modules@.len() {
        None
    } else if module_fault(config, from) is Some {
        Some(from)
    } else {
        first_refused_from(config, from + 1)
    }
}

/// The identifier that route `r` names as its sink number `k`.
pub open spec fn sink_id(config: Configuration, r: int, k: int) -> Seq<char> {
    config.routes@[r].route.to@[k]@
}

/// The identifier that route `r` names as its source number `i`.
pub open spec fn source_id(config: Configuration, r: int, i: int) -> Seq<char> {
    config.routes@[r].route.from@[i]@
}

/// What is wrong with sink `k` of route `r`, if anything: no module bears its
/// identifier, or the module has no mailbox.
pub open spec fn sink_check(config: Configuration, r: int, k: int) -> Option<WiringFault> {
    match position(config.ids(), sink_id(config, r, k)) {
        None => Some(WiringFault::UnknownModule),
        Some(j) => if can_receive_of(config.modules@[j].config) {
            None
        } else {
            Some(WiringFault::NoMailbox)
        },
    }
}

/// What is wrong with source `i` of route `r`, if anything: no module bears
/// its identifier, or the route has a sink to register and the module cannot
/// emit.
pub open spec fn source_check(config: Configuration, r: int, i: int) -> Option<WiringFault> {
    match position(config.ids(), source_id(config, r, i)) {
        None => Some(WiringFault::UnknownModule),
        Some(j) => if can_emit_of(config.modules@[j].config) || config.routes@[r].route.to@.len()
            == 0 {
            None
        } else {
            Some(WiringFault::NoOutput)
        },
    }
}

/// The first faulty sink at or after sink `k` of route `r`, routes in order
/// and the sinks of a route in order.
pub open spec fn sink_fault_from(config: Configuration, r: int, k: int) -> Option<(int, int)>
    decreases config.routes@.len() - r, config.routes@[r].route.to@.len() - k,
{
    if r < 0 || k < 0 || r >= config.routes@.len() {
        None
    } else if k >= config.routes@[r].route.to@.len() {
        sink_fault_from(config, r + 1, 0)
    } else if sink_check(config, r, k) is Some {
        Some((r, k))
    } else {
        sink_fault_from(config, r, k + 1)
    }
}

/// The first faulty source at or after source `i` of route `r`, routes in
/// order and the sources of a route in order.
pub open spec fn source_fault_from(config: Configuration, r: int, i: int) -> Option<(int, int)>
    decreases config.routes@.len() - r, config.routes@[r].route.from@.len() - i,
{
    if r < 0 || i < 0 || r >= config.routes@.len() {
        None
    } else if i >= config.routes@[r].route.from@.len() {
        source_fault_from(config, r + 1, 0)
    } else if source_check(config, r, i) is Some {
        Some((r, i))
    } else {
        source_fault_from(config, r, i + 1)
    }
}

/// The slot that sink `k` of route `r` resolves to.
pub open spec fn sink_slot(config: Configuration, r: int, k: int) -> usize {
    position(config.ids(), sink_id(config, r, k))->0 as usize
}

/// The link that route `r` makes to its sink `k`.
pub open spec fn sink_link(config: Configuration, r: int, k: int) -> Link {
    Link { target: sink_slot(config, r, k), overflow: config.routes@[r].route.overflow }
}

/// The outputs of the module in slot `m` once registration has gone through
/// every route before `r`, every source of route `r` before `i`, and for
/// source `i` every sink before `k`: each source of a route gets every sink of
/// that route, in the order of the route.
pub open spec fn wired(config: Configuration, m: int, r: int, i: int, k: int) -> Seq<Link>
    decreases r, i, k,
{
    if r < 0 || i < 0 || k < 0 {
        Seq::empty()
    } else if k > 0 {
        let before = wired(config, m, r, i, k - 1);
        if position(config.ids(), source_id(config, r, i)) == Some(m) {
            before.push(sink_link(config, r, k - 1))
        } else {
            before
        }
    } else if i > 0 {
        wired(config, m, r, i - 1, config.routes@[r].route.to@.len() as int)
    } else if r > 0 {
        wired(config, m, r - 1, config.routes@[r - 1].route.from@.len() as int, 0)
    } else {
        Seq::empty()
    }
}

/// The outputs of the module in slot `m` once every route is wired.
pub open spec fn wired_outputs(config: Configuration, m: int) -> Seq<Link> {
    wired(config, m, config.routes@.len() as int, 0, 0)
}

/// The module in slot `m` with the given outputs, before any `Start`.
pub open spec fn wired_state(config: Configuration, m: int, outputs: Seq<Link>) -> ModuleState {
    ModuleState {
        outputs,
        ..initial_state(
            can_receive_of(config.modules@[m].config),
            can_emit_of(config.modules@[m].config),
        )
    }
}

} // verus!
