use vstd::prelude::*;
use crate::config::{
    position, position_from, str_eq, ConfigError, ConfigErrorView, Configuration,
};
use crate::event::{Event, Signal};
use crate::module::{
    after_event, response, state_valid, Directive, Endpoint, Link, Module, ModuleState, Phase,
    RuntimeError,
};
use crate::registry::{connected, leads_to, lemma_stays_connected, ModuleInstance};
use crate::wiring::{
    fault_of, find_module, first_refused_from, module_fault, sink_check, sink_fault_from, sink_id,
    sink_link, source_check, source_fault_from, source_id, wired, wired_outputs, wired_state,
    WiringError, WiringErrorView, WiringFault,
};

verus! {

/// Why no pipeline was built.
#[derive(Debug, PartialEq, Eq)]
pub enum BuildError {
    /// The module `module` could not be built from its configuration.
    Config { module: String, error: ConfigError },
    /// A route could not be wired.
    Wiring(WiringError),
}

/// `BuildError` over sequences of characters.
pub enum BuildErrorView {
    Config { module: Seq<char>, error: ConfigErrorView },
    Wiring(WiringErrorView),
}

impl View for BuildError {
    type V = BuildErrorView;

    open spec fn view(&self) -> BuildErrorView {
        match *self {
            BuildError::Config { module, error } => BuildErrorView::Config {
                module: module@,
                error: error@,
            },
            BuildError::Wiring(e) => BuildErrorView::Wiring(e@),
        }
    }
}

/// The error that stops the build of `config`, if any: the first module that
/// is not built; else the first faulty sink of any route; else the
/// first faulty source of any route.
pub open spec fn build_error(config: Configuration) -> Option<BuildErrorView> {
    match first_refused_from(config, 0) {
        Some(n) => Some(
            BuildErrorView::Config {
                module: config.modules@[n].id@,
                error: module_fault(config, n)->0,
            },
        ),
        None => match sink_fault_from(config, 0, 0) {
            Some((r, k)) => Some(
                BuildErrorView::Wiring(
                    WiringErrorView {
                        route: config.routes@[r].name@,
                        module: sink_id(config, r, k),
                        fault: sink_check(config, r, k)->0,
                    },
                ),
            ),
            None => match source_fault_from(config, 0, 0) {
                Some((r, i)) => Some(
                    BuildErrorView::Wiring(
                        WiringErrorView {
                            route: config.routes@[r].name@,
                            module: source_id(config, r, i),
                            fault: source_check(config, r, i)->0,
                        },
                    ),
                ),
                None => None,
            },
        },
    }
}

/// The realized graph: every configured module, built and wired, none started.
/// A module either emits or has a mailbox, never both, so the graph has no
/// cycle: feedback from a sink to a source cannot be configured.
pub struct Pipeline {
    ids: Vec<String>,
    modules: Vec<ModuleInstance>,
}

impl Pipeline {
    /// The identifiers of the modules, by slot.
    pub closed spec fn ids(&self) -> Seq<Seq<char>> {
        Seq::new(self.ids@.len(), |i: int| self.ids@[i]@)
    }

    /// The state of each module, by slot.
    pub closed spec fn states(&self) -> Seq<ModuleState> {
        Seq::new(self.modules@.len(), |i: int| self.modules@[i].state())
    }

    /// The modules, by slot.
    pub closed spec fn modules(&self) -> Seq<ModuleInstance> {
        self.modules@
    }

    /// Every module is valid and none has handled an event yet, and every
    /// endpoint leads to the mailbox that its link names.
    pub closed spec fn valid(&self) -> bool {
        &&& self.ids@.len() == self.modules@.len()
        &&& connected(self.modules@)
        &&& forall|i: int|
            0 <= i < self.modules@.len() ==> (#[trigger] self.modules@[i]).valid()
                && self.modules@[i].state().phase == Phase::Initialized
    }

    /// In a valid pipeline no module was started: each is in its first phase
    /// and in a valid state.
    pub proof fn lemma_valid(&self)
        requires
            self.valid(),
        ensures
            self.ids().len() == self.states().len(),
            self.modules().len() == self.states().len(),
            connected(self.modules()),
            forall|i: int|
                0 <= i < self.states().len() ==> state_valid(#[trigger] self.states()[i])
                    && self.states()[i].phase == Phase::Initialized,
    {
        assert forall|i: int| 0 <= i < self.states().len() implies state_valid(
            #[trigger] self.states()[i],
        ) && self.states()[i].phase == Phase::Initialized by {
            self.modules@[i].valid_state();
        }
    }

    /// How many modules there are.
    pub fn len(&self) -> (n: usize)
        ensures
            n == self.states().len(),
    {
        self.modules.len()
    }

    /// The module in slot `slot`, if there is one.
    pub fn module(&self, slot: usize) -> (r: Option<&ModuleInstance>)
        requires
            self.valid(),
        ensures
            r is Some <==> slot < self.states().len(),
            r is Some ==> r->0.valid() && r->0.state() == self.states()[slot as int],
            r is Some ==> *r->0 == self.modules()[slot as int],
    {
        if slot < self.modules.len() {
            Some(&self.modules[slot])
        } else {
            None
        }
    }

    /// The identifier of the module in slot `slot`, if there is one.
    pub fn id_of(&self, slot: usize) -> (r: Option<&String>)
        ensures
            r is Some <==> slot < self.ids().len(),
            r is Some ==> r->0@ == self.ids()[slot as int],
    {
        if slot < self.ids.len() {
            Some(&self.ids[slot])
        } else {
            None
        }
    }

    /// Builds every configured module, in order, then wires every route: first a send
    /// endpoint is taken from the mailbox of every sink of every route, then
    /// every source of every route gets the endpoints of its route's sinks.
    /// Every endpoint that a module then holds sends into the mailbox of the
    /// module that its link names.
    /// The first module or route that fails stops the build. No module has
    /// handled an event when the pipeline is returned.
    pub fn build(config: &Configuration) -> (r: Result<Pipeline, BuildError>)
        ensures
            match r {
                Ok(p) => {
                    &&& build_error(*config) is None
                    &&& p.valid()
                    &&& p.ids() == config.ids()
                    &&& p.states().len() == config.modules@.len()
                    &&& p.modules().len() == config.modules@.len()
                    &&& connected(p.modules())
                    &&& forall|m: int|
                        0 <= m < config.modules@.len() ==> #[trigger] p.states()[m] == wired_state(
                            *config,
                            m,
                            wired_outputs(*config, m),
                        )
                },
                Err(e) => build_error(*config) == Some(e@),
            },
    {
        let n = config.modules.len();
        let mut ids: Vec<String> = Vec::new();
        let mut modules: Vec<ModuleInstance> = Vec::new();
        let mut a: usize = 0;
        while a < n
            invariant
                n == config.modules@.len(),
                0 <= a <= n,
                ids@.len() == a,
                modules@.len() == a,
                first_refused_from(*config, a as int) == first_refused_from(*config, 0),
                forall|i: int| 0 <= i < a ==> (#[trigger] ids@[i])@ == config.modules@[i].id@,
                forall|i: int| 0 <= i < a ==> (#[trigger] modules@[i]).endpoints().len() == 0,
                forall|i: int|
                    0 <= i < a ==> (#[trigger] modules@[i]).valid() && modules@[i].state()
                        == wired_state(*config, i, Seq::empty()),
            decreases n - a,
        {
            let id = &config.modules[a].id;
            let empty = str_eq(id.as_str(), "");
            let first = match find_module(config, id.as_str()) {
                Some(j) => j == a,
                None => false,
            };
            proof {
                reveal_strlit("");
                if id@.len() == 0 {
                    assert(id@ =~= ""@);
                }
                assert(config.ids()[a as int] == id@);
            }
            if empty {
                return Err(BuildError::Config { module: id.clone(), error: ConfigError::EmptyId });
            }
            if !first {
                return Err(
                    BuildError::Config {
                        module: id.clone(),
                        error: ConfigError::DuplicateId { id: id.clone() },
                    },
                );
            }
            match ModuleInstance::initialize(&config.modules[a].config) {
                Ok(m) => {
                    ids.push(config.modules[a].id.clone());
                    modules.push(m);
                },
                Err(error) => {
                    return Err(BuildError::Config { module: config.modules[a].id.clone(), error });
                },
            }
            a += 1;
        }
        let routes = config.routes.len();
        let mut mailboxes: Vec<Vec<Endpoint>> = Vec::new();
        let mut r: usize = 0;
        while r < routes
            invariant
                routes == config.routes@.len(),
                n == config.modules@.len(),
                modules@.len() == n,
                connected(modules@),
                0 <= r <= routes,
                mailboxes@.len() == r,
                first_refused_from(*config, 0) is None,
                sink_fault_from(*config, r as int, 0) == sink_fault_from(*config, 0, 0),
                forall|i: int|
                    0 <= i < n ==> (#[trigger] modules@[i]).valid() && modules@[i].state()
                        == wired_state(*config, i, Seq::empty()),
                forall|x: int|
                    0 <= x < r ==> (#[trigger] mailboxes@[x])@.len()
                        == config.routes@[x].route.to@.len(),
                forall|x: int, k: int|
                    0 <= x < r && 0 <= k < config.routes@[x].route.to@.len() ==> (
                    #[trigger] mailboxes@[x]@[k]).link == sink_link(*config, x, k) && leads_to(
                        modules@,
                        mailboxes@[x]@[k],
                    ),
            decreases routes - r,
        {
            let to = &config.routes[r].route.to;
            let mut row: Vec<Endpoint> = Vec::new();
            let mut k: usize = 0;
            while k < to.len()
                invariant
                    routes == config.routes@.len(),
                    n == config.modules@.len(),
                    modules@.len() == n,
                connected(modules@),
                    0 <= r < routes,
                    to == &config.routes@[r as int].route.to,
                    0 <= k <= to@.len(),
                    row@.len() == k,
                    first_refused_from(*config, 0) is None,
                    sink_fault_from(*config, r as int, k as int) == sink_fault_from(*config, 0, 0),
                    forall|i: int|
                        0 <= i < n ==> (#[trigger] modules@[i]).valid() && modules@[i].state()
                            == wired_state(*config, i, Seq::empty()),
                    forall|b: int|
                        0 <= b < k ==> (#[trigger] row@[b]).link == sink_link(*config, r as int, b)
                            && leads_to(modules@, row@[b]),
                decreases to@.len() - k,
            {
                let j = match find_module(config, to[k].as_str()) {
                    Some(j) => j,
                    None => {
                        return Err(
                            BuildError::Wiring(
                                WiringError {
                                    route: config.routes[r].name.clone(),
                                    module: to[k].clone(),
                                    fault: WiringFault::UnknownModule,
                                },
                            ),
                        );
                    },
                };
                match modules[j].mailbox_address() {
                    Ok(tx) => {
                        row.push(
                            Endpoint::new(
                                Link { target: j, overflow: config.routes[r].route.overflow },
                                tx,
                            ),
                        );
                    },
                    Err(_) => {
                        return Err(
                            BuildError::Wiring(
                                WiringError {
                                    route: config.routes[r].name.clone(),
                                    module: to[k].clone(),
                                    fault: WiringFault::NoMailbox,
                                },
                            ),
                        );
                    },
                }
                k += 1;
            }
            mailboxes.push(row);
            r += 1;
        }
        let mut r: usize = 0;
        while r < routes
            invariant
                routes == config.routes@.len(),
                n == config.modules@.len(),
                modules@.len() == n,
                connected(modules@),
                0 <= r <= routes,
                mailboxes@.len() == routes,
                first_refused_from(*config, 0) is None,
                sink_fault_from(*config, 0, 0) is None,
                source_fault_from(*config, r as int, 0) == source_fault_from(*config, 0, 0),
                forall|i: int|
                    0 <= i < n ==> (#[trigger] modules@[i]).valid() && modules@[i].state()
                        == wired_state(*config, i, wired(*config, i, r as int, 0, 0)),
                forall|x: int|
                    0 <= x < routes ==> (#[trigger] mailboxes@[x])@.len()
                        == config.routes@[x].route.to@.len(),
                forall|x: int, k: int|
                    0 <= x < routes && 0 <= k < config.routes@[x].route.to@.len() ==> (
                    #[trigger] mailboxes@[x]@[k]).link == sink_link(*config, x, k) && leads_to(
                        modules@,
                        mailboxes@[x]@[k],
                    ),
            decreases routes - r,
        {
            let from = &config.routes[r].route.from;
            let mut i: usize = 0;
            while i < from.len()
                invariant
                    routes == config.routes@.len(),
                    n == config.modules@.len(),
                    modules@.len() == n,
                connected(modules@),
                    0 <= r < routes,
                    from == &config.routes@[r as int].route.from,
                    0 <= i <= from@.len(),
                    mailboxes@.len() == routes,
                    first_refused_from(*config, 0) is None,
                    sink_fault_from(*config, 0, 0) is None,
                    source_fault_from(*config, r as int, i as int) == source_fault_from(
                        *config,
                        0,
                        0,
                    ),
                    forall|x: int|
                        0 <= x < n ==> (#[trigger] modules@[x]).valid() && modules@[x].state()
                            == wired_state(*config, x, wired(*config, x, r as int, i as int, 0)),
                    forall|x: int|
                        0 <= x < routes ==> (#[trigger] mailboxes@[x])@.len()
                            == config.routes@[x].route.to@.len(),
                    forall|x: int, k: int|
                        0 <= x < routes && 0 <= k < config.routes@[x].route.to@.len() ==> (
                        #[trigger] mailboxes@[x]@[k]).link == sink_link(*config, x, k) && leads_to(
                        modules@,
                        mailboxes@[x]@[k],
                    ),
                decreases from@.len() - i,
            {
                let j = match find_module(config, from[i].as_str()) {
                    Some(j) => j,
                    None => {
                        return Err(
                            BuildError::Wiring(
                                WiringError {
                                    route: config.routes[r].name.clone(),
                                    module: from[i].clone(),
                                    fault: WiringFault::UnknownModule,
                                },
                            ),
                        );
                    },
                };
                let width = mailboxes[r].len();
                let mut k: usize = 0;
                while k < width
                    invariant
                        routes == config.routes@.len(),
                        n == config.modules@.len(),
                        modules@.len() == n,
                connected(modules@),
                        0 <= r < routes,
                        from == &config.routes@[r as int].route.from,
                        0 <= i < from@.len(),
                        j < n,
                        position(config.ids(), source_id(*config, r as int, i as int)) == Some(
                            j as int,
                        ),
                        mailboxes@.len() == routes,
                        width == config.routes@[r as int].route.to@.len(),
                        0 <= k <= width,
                        k > 0 ==> source_check(*config, r as int, i as int) is None,
                        first_refused_from(*config, 0) is None,
                        sink_fault_from(*config, 0, 0) is None,
                        source_fault_from(*config, r as int, i as int) == source_fault_from(
                            *config,
                            0,
                            0,
                        ),
                        forall|x: int|
                            0 <= x < n ==> (#[trigger] modules@[x]).valid() && modules@[x].state()
                                == wired_state(
                                *config,
                                x,
                                wired(*config, x, r as int, i as int, k as int),
                            ),
                        forall|x: int|
                            0 <= x < routes ==> (#[trigger] mailboxes@[x])@.len()
                                == config.routes@[x].route.to@.len(),
                        forall|x: int, k: int|
                            0 <= x < routes && 0 <= k < config.routes@[x].route.to@.len() ==> (
                            #[trigger] mailboxes@[x]@[k]).link == sink_link(*config, x, k) && leads_to(
                        modules@,
                        mailboxes@[x]@[k],
                    ),
                    decreases width - k,
                {
                    let endpoint = mailboxes[r][k].share();
                    let ghost before = modules@;
                    match modules[j].register_output(endpoint) {
                        Ok(()) => {},
                        Err(e) => {
                            return Err(
                                BuildError::Wiring(
                                    WiringError {
                                        route: config.routes[r].name.clone(),
                                        module: from[i].clone(),
                                        fault: fault_of(e),
                                    },
                                ),
                            );
                        },
                    }
                    proof {
                        assert forall|t: int| 0 <= t < n && before[t] is Sink implies modules@[t]
                            == before[t] by {}
                        assert forall|x: int, c: int|
                            0 <= x < routes && 0 <= c < config.routes@[x].route.to@.len()
                            implies leads_to(modules@, #[trigger] mailboxes@[x]@[c]) by {
                            assert(leads_to(before, mailboxes@[x]@[c]));
                        }
                        assert forall|m: int, c: int|
                            0 <= m < n && 0 <= c < modules@[m].endpoints().len() implies leads_to(
                            modules@,
                            #[trigger] modules@[m].endpoints()[c],
                        ) by {
                            if m != j {
                                assert(modules@[m] == before[m]);
                                assert(leads_to(before, before[m].endpoints()[c]));
                            } else if c < before[m].endpoints().len() {
                                assert(leads_to(before, before[m].endpoints()[c]));
                            } else {
                                assert(leads_to(before, mailboxes@[r as int]@[k as int]));
                            }
                        }
                        assert forall|x: int| 0 <= x < n implies (#[trigger] modules@[x]).valid()
                            && modules@[x].state() == wired_state(
                            *config,
                            x,
                            wired(*config, x, r as int, i as int, k + 1),
                        ) by {
                            if x != j {
                                assert(modules@[x] == before[x]);
                            }
                        }
                    }
                    k += 1;
                }
                i += 1;
            }
            r += 1;
        }
        let p = Pipeline { ids, modules };
        proof {
            assert(p.ids() =~= config.ids());
            assert forall|m: int| 0 <= m < config.modules@.len() implies #[trigger] p.states()[m]
                == wired_state(*config, m, wired_outputs(*config, m)) by {
                assert(p.modules@[m].valid());
            }
        }
        Ok(p)
    }

    /// Tells every module to start, in slot order. A module that fails does
    /// not keep the others from starting; the result is an error exactly if
    /// some module failed, and then holds every module's answer.
    pub fn start(self) -> (r: Result<Launch, StartError>)
        requires
            self.valid(),
        ensures
            match r {
                Ok(l) => {
                    &&& l.handle.valid()
                    &&& l.handle.ids() == self.ids()
                    &&& l.handle.states() == told(self.states(), Signal::Start)
                    &&& l.directives@.len() == self.states().len()
                    &&& forall|i: int|
                        0 <= i < self.states().len() ==> response(
                            self.states()[i],
                            Signal::Start,
                        ) == Ok::<Directive, RuntimeError>(#[trigger] l.directives@[i])
                },
                Err(e) => {
                    &&& e.handle.valid()
                    &&& e.handle.ids() == self.ids()
                    &&& e.handle.states() == told(self.states(), Signal::Start)
                    &&& e.answers@ == answers(self.states(), Signal::Start)
                    &&& exists|i: int|
                        0 <= i < self.states().len() && (#[trigger] response(
                            self.states()[i],
                            Signal::Start,
                        )) is Err
                },
            },
    {
        let ghost states = self.states();
        let mut handle = RunningHandle { ids: self.ids, modules: self.modules };
        proof {
            assert(handle.states() =~= states);
            assert(handle.ids() =~= self.ids());
        }
        let given = handle.restart();
        let mut directives: Vec<Directive> = Vec::new();
        let mut i: usize = 0;
        while i < given.len()
            invariant
                0 <= i <= given@.len(),
                directives@.len() == i,
                given@ == answers(states, Signal::Start),
                states == self.states(),
                handle.valid(),
                handle.ids() == self.ids(),
                handle.states() == told(states, Signal::Start),
                forall|x: int|
                    0 <= x < i ==> given@[x] == Ok::<Directive, RuntimeError>(
                        #[trigger] directives@[x],
                    ),
            decreases given@.len() - i,
        {
            match given[i] {
                Ok(d) => {
                    directives.push(d);
                },
                Err(_) => {
                    proof {
                        assert(response(states[i as int], Signal::Start) is Err);
                    }
                    return Err(StartError { handle, answers: given });
                },
            }
            i += 1;
        }
        Ok(Launch { handle, directives })
    }
}

/// The answer of each module in `states` to `signal`, by slot.
pub open spec fn answers(states: Seq<ModuleState>, signal: Signal) -> Seq<
    Result<Directive, RuntimeError>,
> {
    Seq::new(states.len(), |i: int| response(states[i], signal))
}

/// The states of the modules in `states` once each has handled `signal`.
pub open spec fn told(states: Seq<ModuleState>, signal: Signal) -> Seq<ModuleState> {
    Seq::new(states.len(), |i: int| after_event(states[i], signal))
}

/// A started pipeline with what its driver has to do for each module, by
/// slot.
pub struct Launch {
    pub handle: RunningHandle,
    pub directives: Vec<Directive>,
}

/// A start in which some module failed: the pipeline, with the answer of each
/// module, by slot. The modules that did not fail run.
pub struct StartError {
    pub handle: RunningHandle,
    pub answers: Vec<Result<Directive, RuntimeError>>,
}

/// A pipeline after its start: the one path on which its modules get events.
pub struct RunningHandle {
    ids: Vec<String>,
    modules: Vec<ModuleInstance>,
}

impl RunningHandle {
    /// The identifiers of the modules, by slot.
    pub closed spec fn ids(&self) -> Seq<Seq<char>> {
        Seq::new(self.ids@.len(), |i: int| self.ids@[i]@)
    }

    /// The state of each module, by slot.
    pub closed spec fn states(&self) -> Seq<ModuleState> {
        Seq::new(self.modules@.len(), |i: int| self.modules@[i].state())
    }

    /// The modules, by slot.
    pub closed spec fn modules(&self) -> Seq<ModuleInstance> {
        self.modules@
    }

    /// Every module is valid, and every endpoint leads to the mailbox that
    /// its link names.
    pub closed spec fn valid(&self) -> bool {
        &&& self.ids@.len() == self.modules@.len()
        &&& connected(self.modules@)
        &&& forall|i: int| 0 <= i < self.modules@.len() ==> (#[trigger] self.modules@[i]).valid()
    }

    /// Every module of a valid handle is in a valid state.
    pub proof fn lemma_valid(&self)
        requires
            self.valid(),
        ensures
            self.ids().len() == self.states().len(),
            self.modules().len() == self.states().len(),
            connected(self.modules()),
            forall|i: int| 0 <= i < self.states().len() ==> state_valid(#[trigger] self.states()[i]),
    {
        assert forall|i: int| 0 <= i < self.states().len() implies state_valid(
            #[trigger] self.states()[i],
        ) by {
            self.modules@[i].valid_state();
        }
    }

    /// How many modules there are.
    pub fn len(&self) -> (n: usize)
        ensures
            n == self.states().len(),
    {
        self.modules.len()
    }

    /// The module in slot `slot`, if there is one.
    pub fn module(&self, slot: usize) -> (r: Option<&ModuleInstance>)
        requires
            self.valid(),
        ensures
            r is Some <==> slot < self.states().len(),
            r is Some ==> r->0.valid() && r->0.state() == self.states()[slot as int],
            r is Some ==> *r->0 == self.modules()[slot as int],
    {
        if slot < self.modules.len() {
            Some(&self.modules[slot])
        } else {
            None
        }
    }

    /// The identifier of the module in slot `slot`, if there is one.
    pub fn id_of(&self, slot: usize) -> (r: Option<&String>)
        ensures
            r is Some <==> slot < self.ids().len(),
            r is Some ==> r->0@ == self.ids()[slot as int],
    {
        if slot < self.ids.len() {
            Some(&self.ids[slot])
        } else {
            None
        }
    }

    fn tell(&mut self, start: bool) -> (r: Vec<Result<Directive, RuntimeError>>)
        requires
            old(self).valid(),
        ensures
            final(self).valid(),
            final(self).ids() == old(self).ids(),
            final(self).states() == told(
                old(self).states(),
                if start {
                    Signal::Start
                } else {
                    Signal::Stop
                },
            ),
            r@ == answers(
                old(self).states(),
                if start {
                    Signal::Start
                } else {
                    Signal::Stop
                },
            ),
    {
        let ghost signal = if start {
            Signal::Start
        } else {
            Signal::Stop
        };
        let ghost before = self.modules@;
        let mut out: Vec<Result<Directive, RuntimeError>> = Vec::new();
        let n = self.modules.len();
        let mut i: usize = 0;
        while i < n
            invariant
                n == before.len(),
                self.modules@.len() == n,
                self.ids == old(self).ids,
                self.ids@.len() == n,
                0 <= i <= n,
                out@.len() == i,
                signal == if start {
                    Signal::Start
                } else {
                    Signal::Stop
                },
                connected(self.modules@),
                forall|x: int| 0 <= x < n ==> (#[trigger] self.modules@[x]).valid(),
                forall|x: int| i <= x < n ==> self.modules@[x] == before[x],
                forall|x: int|
                    0 <= x < i ==> (#[trigger] self.modules@[x]).state() == after_event(
                        before[x].state(),
                        signal,
                    ),
                forall|x: int|
                    0 <= x < i ==> (#[trigger] out@[x]) == response(before[x].state(), signal),
            decreases n - i,
        {
            let event = if start {
                Event::Start
            } else {
                Event::Stop
            };
            let ghost prior = self.modules@;
            let answer = self.modules[i].handle_event(event);
            out.push(answer);
            proof {
                lemma_stays_connected(prior, self.modules@, i as int);
                assert forall|x: int| 0 <= x < n implies (#[trigger] self.modules@[x]).valid() by {
                    if x != i {
                        assert(self.modules@[x] == prior[x]);
                    }
                }
            }
            i += 1;
        }
        proof {
            assert(self.states() =~= told(old(self).states(), signal));
            assert(out@ =~= answers(old(self).states(), signal));
        }
        out
    }

    /// Tells every module to start, in slot order, and returns each module's
    /// answer. A module that runs gets a new context and has its old one
    /// cancelled first.
    pub fn restart(&mut self) -> (r: Vec<Result<Directive, RuntimeError>>)
        requires
            old(self).valid(),
        ensures
            final(self).valid(),
            final(self).ids() == old(self).ids(),
            final(self).states() == told(old(self).states(), Signal::Start),
            r@ == answers(old(self).states(), Signal::Start),
    {
        self.tell(true)
    }

    /// Tells every module to stop, in slot order, and returns for each module
    /// the context to cancel, if one was live. Every module releases its
    /// outputs.
    pub fn stop(&mut self) -> (r: Vec<Option<u64>>)
        requires
            old(self).valid(),
        ensures
            final(self).valid(),
            final(self).ids() == old(self).ids(),
            final(self).states() == told(old(self).states(), Signal::Stop),
            r@.len() == old(self).states().len(),
            forall|i: int| 0 <= i < r@.len() ==> #[trigger] r@[i] == old(self).states()[i].live,
    {
        let given = self.tell(false);
        let mut cancelled: Vec<Option<u64>> = Vec::new();
        let mut i: usize = 0;
        while i < given.len()
            invariant
                0 <= i <= given@.len(),
                cancelled@.len() == i,
                given@ == answers(old(self).states(), Signal::Stop),
                forall|x: int| 0 <= x < i ==> #[trigger] cancelled@[x] == old(self).states()[x].live,
            decreases given@.len() - i,
        {
            let c = match given[i] {
                Ok(d) => d.cancel,
                Err(_) => None,
            };
            cancelled.push(c);
            i += 1;
        }
        cancelled
    }

    /// The slot of the first module that bears `id`.
    pub fn slot_of(&self, id: &str) -> (r: Option<usize>)
        ensures
            match r {
                Some(j) => position(self.ids(), id@) == Some(j as int),
                None => position(self.ids(), id@) is None,
            },
    {
        let mut j: usize = 0;
        while j < self.ids.len()
            invariant
                0 <= j <= self.ids@.len(),
                position_from(self.ids(), id@, j as int) == position(self.ids(), id@),
            decreases self.ids@.len() - j,
        {
            if str_eq(self.ids[j].as_str(), id) {
                return Some(j);
            }
            j += 1;
        }
        None
    }

    /// Hands `event` to the module in slot `slot` and returns its answer;
    /// without such a module nothing happens.
    pub fn dispatch(&mut self, slot: usize, event: Event) -> (r: Option<
        Result<Directive, RuntimeError>,
    >)
        requires
            old(self).valid(),
        ensures
            final(self).valid(),
            final(self).ids() == old(self).ids(),
            slot >= old(self).states().len() ==> r is None && final(self).states() == old(
                self,
            ).states(),
            slot < old(self).states().len() ==> r == Some(
                response(old(self).states()[slot as int], event.signal_of()),
            ) && final(self).states() == old(self).states().update(
                slot as int,
                after_event(old(self).states()[slot as int], event.signal_of()),
            ),
    {
        if slot < self.modules.len() {
            let ghost prior = self.modules@;
            let answer = self.modules[slot].handle_event(event);
            proof {
                lemma_stays_connected(prior, self.modules@, slot as int);
                assert forall|x: int| 0 <= x < self.modules@.len() implies (
                #[trigger] self.modules@[x]).valid() by {
                    if x != slot {
                        assert(self.modules@[x] == prior[x]);
                    }
                }
                assert(self.states() =~= old(self).states().update(
                    slot as int,
                    after_event(old(self).states()[slot as int], event.signal_of()),
                ));
            }
            Some(answer)
        } else {
            None
        }
    }
}

} // verus!
