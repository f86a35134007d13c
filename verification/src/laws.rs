use vstd::prelude::*;
use crate::config::{lemma_position_from, position, Configuration};
use crate::event::Signal;
use crate::module::{
    after_event, follow, live_set, registration, response, state_valid, CapabilityError,
    Directive, Link, ModuleState, Phase, RegisterError, RuntimeError,
};
use crate::pipeline::{build_error, BuildErrorView};
use crate::registry::{can_emit_of, can_receive_of};
use crate::wiring::{
    first_refused_from, sink_check, sink_fault_from, sink_id, sink_link, source_check,
    source_fault_from, source_id, wired, wired_outputs, wired_state, WiringErrorView, WiringFault,
};

verus! {

/// Whatever event a module in a valid state handles, its state stays valid,
/// the contexts that are live once the driver has followed the answer are
/// those of the new state, and there is at most one of them.
pub proof fn law_single_context(s: ModuleState, signal: Signal)
    requires
        state_valid(s),
    ensures
        state_valid(after_event(s, signal)),
        response(s, signal) is Ok ==> follow(live_set(s), response(s, signal)->Ok_0) == live_set(
            after_event(s, signal),
        ),
        response(s, signal) is Err ==> after_event(s, signal) == s,
        live_set(after_event(s, signal)).finite(),
        live_set(after_event(s, signal)).len() <= 1,
{
    if response(s, signal) is Ok {
        assert(follow(live_set(s), response(s, signal)->Ok_0) =~= live_set(after_event(s, signal)));
    }
}

/// Two `Start`s in a row: the second has the context of the first cancelled,
/// and once the driver has followed both answers the context of the second is
/// the only one that is live.
pub proof fn law_restart_supersedes(s: ModuleState)
    requires
        state_valid(s),
        response(s, Signal::Start) is Ok,
        response(after_event(s, Signal::Start), Signal::Start) is Ok,
    ensures
        ({
            let first = response(s, Signal::Start)->Ok_0;
            let between = after_event(s, Signal::Start);
            let second = response(between, Signal::Start)->Ok_0;
            let live = follow(follow(live_set(s), first), second);
            &&& first.spawn is Some
            &&& second.spawn is Some
            &&& second.cancel == first.spawn
            &&& first.spawn != second.spawn
            &&& live == set![second.spawn->0]
            &&& !live.contains(first.spawn->0)
            &&& live == live_set(after_event(between, Signal::Start))
        }),
{
    let first = response(s, Signal::Start)->Ok_0;
    let between = after_event(s, Signal::Start);
    let second = response(between, Signal::Start)->Ok_0;
    law_single_context(s, Signal::Start);
    law_single_context(between, Signal::Start);
    assert(follow(follow(live_set(s), first), second) =~= set![second.spawn->0]);
}

/// A module that cannot emit refuses every output with a capability error,
/// whatever its phase, and keeps its state.
pub proof fn law_sink_refuses_output(s: ModuleState)
    requires
        !s.can_emit,
    ensures
        registration(s) == Err::<(), RegisterError>(
            RegisterError::Capability(CapabilityError::NoOutput),
        ),
{
}

/// Once a module has handled `Start`, its wiring is frozen: it registers no
/// further output.
pub proof fn law_wiring_frozen_after_start(s: ModuleState)
    requires
        state_valid(s),
        response(s, Signal::Start) is Ok,
    ensures
        registration(after_event(s, Signal::Start)) is Err,
{
}

/// Wiring comes before any start: the state in which a built pipeline holds
/// a module has the module's complete wiring and no context yet, the first
/// `Start` finds it so and spawns the module's first context, and handling
/// `Start` leaves the wiring as it is.
pub proof fn law_wired_before_started(config: Configuration, m: int)
    requires
        build_error(config) is None,
        0 <= m < config.modules@.len(),
    ensures
        ({
            let built = wired_state(config, m, wired_outputs(config, m));
            let running = after_event(built, Signal::Start);
            &&& state_valid(built)
            &&& built.phase == Phase::Initialized
            &&& built.live is None
            &&& built.issued == 0
            &&& response(built, Signal::Start) == Ok::<Directive, RuntimeError>(
                Directive { cancel: None, spawn: Some(0) },
            )
            &&& running.phase == Phase::Running
            &&& running.outputs == wired_outputs(config, m)
        }),
{
    if !can_emit_of(config.modules@[m].config) {
        lemma_source_fault_from(config, 0, 0);
        assert forall|a: int, b: int|
            is_source(config, a, b) && #[trigger] position(config.ids(), source_id(config, a, b))
                == Some(m) implies config.routes@[a].route.to@.len() == 0 by {
            assert(source_check(config, a, b) is None);
        }
        lemma_wired_nothing(config, m, config.routes@.len() as int, 0, 0);
    }
}

/// Whether sink `k` of route `r` comes before sink `b` of route `a`.
pub open spec fn earlier(r: int, k: int, a: int, b: int) -> bool {
    r < a || (r == a && k < b)
}

/// Whether route `r` of `config` has a sink number `k`.
pub open spec fn is_sink(config: Configuration, r: int, k: int) -> bool {
    0 <= r < config.routes@.len() && 0 <= k < config.routes@[r].route.to@.len()
}

/// Whether route `r` of `config` has a source number `i`.
pub open spec fn is_source(config: Configuration, r: int, i: int) -> bool {
    0 <= r < config.routes@.len() && 0 <= i < config.routes@[r].route.from@.len()
}

/// The first faulty sink from a place on is a faulty sink at or after that
/// place with no faulty sink between; where there is none, no sink from that
/// place on is faulty.
pub proof fn lemma_sink_fault_from(config: Configuration, r: int, k: int)
    requires
        0 <= r,
        0 <= k,
    ensures
        match sink_fault_from(config, r, k) {
            Some((a, b)) => is_sink(config, a, b) && !earlier(a, b, r, k) && sink_check(
                config,
                a,
                b,
            ) is Some && forall|x: int, y: int|
                is_sink(config, x, y) && !earlier(x, y, r, k) && earlier(x, y, a, b)
                    ==> #[trigger] sink_check(config, x, y) is None,
            None => forall|x: int, y: int|
                is_sink(config, x, y) && !earlier(x, y, r, k) ==> #[trigger] sink_check(
                    config,
                    x,
                    y,
                ) is None,
        },
    decreases config.routes@.len() - r, config.routes@[r].route.to@.len() - k,
{
    if r < config.routes@.len() {
        if k >= config.routes@[r].route.to@.len() {
            lemma_sink_fault_from(config, r + 1, 0);
        } else if sink_check(config, r, k) is None {
            lemma_sink_fault_from(config, r, k + 1);
        }
    }
}

/// The first faulty source from a place on is a faulty source at or after
/// that place with no faulty source between; where there is none, no source
/// from that place on is faulty.
pub proof fn lemma_source_fault_from(config: Configuration, r: int, i: int)
    requires
        0 <= r,
        0 <= i,
    ensures
        match source_fault_from(config, r, i) {
            Some((a, b)) => is_source(config, a, b) && !earlier(a, b, r, i) && source_check(
                config,
                a,
                b,
            ) is Some && forall|x: int, y: int|
                is_source(config, x, y) && !earlier(x, y, r, i) && earlier(x, y, a, b)
                    ==> #[trigger] source_check(config, x, y) is None,
            None => forall|x: int, y: int|
                is_source(config, x, y) && !earlier(x, y, r, i) ==> #[trigger] source_check(
                    config,
                    x,
                    y,
                ) is None,
        },
    decreases config.routes@.len() - r, config.routes@[r].route.from@.len() - i,
{
    if r < config.routes@.len() {
        if i >= config.routes@[r].route.from@.len() {
            lemma_source_fault_from(config, r + 1, 0);
        } else if source_check(config, r, i) is None {
            lemma_source_fault_from(config, r, i + 1);
        }
    }
}

/// A route that names, as a sink or as a source, an identifier that no
/// configured module bears stops the build.
pub proof fn law_unknown_module_stops_build(config: Configuration, r: int, x: int, as_sink: bool)
    requires
        as_sink ==> is_sink(config, r, x) && position(config.ids(), sink_id(config, r, x)) is None,
        !as_sink ==> is_source(config, r, x) && position(config.ids(), source_id(config, r, x))
            is None,
    ensures
        build_error(config) is Some,
        first_refused_from(config, 0) is None ==> build_error(config)->0 is Wiring,
{
    lemma_sink_fault_from(config, 0, 0);
    lemma_source_fault_from(config, 0, 0);
    if as_sink {
        assert(sink_check(config, r, x) is Some);
    } else {
        assert(source_check(config, r, x) is Some);
    }
}

/// Where every module is built and the first faulty sink of any route is an
/// identifier that no configured module bears, the build stops with a wiring
/// error that names the route and the identifier.
pub proof fn law_unknown_sink_is_named(config: Configuration, r: int, k: int)
    requires
        first_refused_from(config, 0) is None,
        is_sink(config, r, k),
        position(config.ids(), sink_id(config, r, k)) is None,
        forall|x: int, y: int|
            is_sink(config, x, y) && earlier(x, y, r, k) ==> #[trigger] sink_check(config, x, y)
                is None,
    ensures
        build_error(config) == Some(
            BuildErrorView::Wiring(
                WiringErrorView {
                    route: config.routes@[r].name@,
                    module: sink_id(config, r, k),
                    fault: WiringFault::UnknownModule,
                },
            ),
        ),
{
    lemma_sink_fault_from(config, 0, 0);
    assert(sink_check(config, r, k) is Some);
    let found = sink_fault_from(config, 0, 0)->0;
    assert(sink_check(config, found.0, found.1) is Some);
    assert(found == (r, k));
}

/// Where every module is built, no sink of any route is faulty, and the first
/// faulty source of any route is an identifier that no configured module
/// bears, the build stops with a wiring error that names the route and the
/// identifier.
pub proof fn law_unknown_source_is_named(config: Configuration, r: int, i: int)
    requires
        first_refused_from(config, 0) is None,
        sink_fault_from(config, 0, 0) is None,
        is_source(config, r, i),
        position(config.ids(), source_id(config, r, i)) is None,
        forall|x: int, y: int|
            is_source(config, x, y) && earlier(x, y, r, i) ==> #[trigger] source_check(
                config,
                x,
                y,
            ) is None,
    ensures
        build_error(config) == Some(
            BuildErrorView::Wiring(
                WiringErrorView {
                    route: config.routes@[r].name@,
                    module: source_id(config, r, i),
                    fault: WiringFault::UnknownModule,
                },
            ),
        ),
{
    lemma_source_fault_from(config, 0, 0);
    assert(source_check(config, r, i) is Some);
    let found = source_fault_from(config, 0, 0)->0;
    assert(source_check(config, found.0, found.1) is Some);
    assert(found == (r, i));
}

/// Whether registration passes the place before sink `k` for source `i` of
/// route `r`; the place after the last route counts.
pub open spec fn is_place(config: Configuration, r: int, i: int, k: int) -> bool {
    &&& 0 <= r <= config.routes@.len()
    &&& 0 <= i
    &&& 0 <= k
    &&& r == config.routes@.len() ==> i == 0 && k == 0
    &&& r < config.routes@.len() ==> {
        &&& i <= config.routes@[r].route.from@.len()
        &&& k <= config.routes@[r].route.to@.len()
        &&& i == config.routes@[r].route.from@.len() ==> k == 0
    }
}

/// Registration only adds outputs: what a module has at one place it has at
/// every later place.
pub proof fn lemma_wired_grows(
    config: Configuration,
    m: int,
    t: Link,
    r0: int,
    i0: int,
    k0: int,
    r: int,
    i: int,
    k: int,
)
    requires
        is_place(config, r0, i0, k0),
        is_place(config, r, i, k),
        r0 < r || (r0 == r && (i0 < i || (i0 == i && k0 <= k))),
        wired(config, m, r0, i0, k0).contains(t),
    ensures
        wired(config, m, r, i, k).contains(t),
    decreases r, i, k,
{
    if r0 == r && i0 == i && k0 == k {
    } else if k > 0 {
        lemma_wired_grows(config, m, t, r0, i0, k0, r, i, k - 1);
        let before = wired(config, m, r, i, k - 1);
        let j = choose|j: int| 0 <= j < before.len() && before[j] == t;
        assert(before.push(sink_link(config, r, k - 1))[j] == t);
    } else if i > 0 {
        lemma_wired_grows(
            config,
            m,
            t,
            r0,
            i0,
            k0,
            r,
            i - 1,
            config.routes@[r].route.to@.len() as int,
        );
    } else {
        lemma_wired_grows(
            config,
            m,
            t,
            r0,
            i0,
            k0,
            r - 1,
            config.routes@[r - 1].route.from@.len() as int,
            0,
        );
    }
}

/// A module that is named as a source only by routes without sinks has no
/// outputs at any place of registration.
pub proof fn lemma_wired_nothing(config: Configuration, m: int, r: int, i: int, k: int)
    requires
        is_place(config, r, i, k),
        forall|x: int, y: int|
            is_source(config, x, y) && #[trigger] position(config.ids(), source_id(config, x, y))
                == Some(m) ==> config.routes@[x].route.to@.len() == 0,
    ensures
        wired(config, m, r, i, k).len() == 0,
    decreases r, i, k,
{
    if k > 0 {
        assert(is_source(config, r, i));
        lemma_wired_nothing(config, m, r, i, k - 1);
    } else if i > 0 {
        lemma_wired_nothing(config, m, r, i - 1, config.routes@[r].route.to@.len() as int);
    } else if r > 0 {
        lemma_wired_nothing(config, m, r - 1, config.routes@[r - 1].route.from@.len() as int, 0);
    }
}

/// Whether `t` is the link that some route makes to one of its sinks.
pub open spec fn is_sink_link(config: Configuration, t: Link) -> bool {
    exists|x: int, y: int| is_sink(config, x, y) && #[trigger] sink_link(config, x, y) == t
}

/// Every output that a module has at any place of registration is the link
/// that some route makes to one of its sinks.
pub proof fn lemma_wired_are_sinks(config: Configuration, m: int, r: int, i: int, k: int)
    requires
        is_place(config, r, i, k),
    ensures
        forall|j: int|
            0 <= j < wired(config, m, r, i, k).len() ==> is_sink_link(
                config,
                #[trigger] wired(config, m, r, i, k)[j],
            ),
    decreases r, i, k,
{
    if k > 0 {
        lemma_wired_are_sinks(config, m, r, i, k - 1);
        let before = wired(config, m, r, i, k - 1);
        assert(is_sink(config, r, k - 1));
        assert forall|j: int| 0 <= j < wired(config, m, r, i, k).len() implies is_sink_link(
            config,
            #[trigger] wired(config, m, r, i, k)[j],
        ) by {
            if j < before.len() {
                assert(wired(config, m, r, i, k)[j] == before[j]);
            } else {
                assert(sink_link(config, r, k - 1) == wired(config, m, r, i, k)[j]);
            }
        }
    } else if i > 0 {
        lemma_wired_are_sinks(config, m, r, i - 1, config.routes@[r].route.to@.len() as int);
        assert(wired(config, m, r, i, k) == wired(
            config,
            m,
            r,
            i - 1,
            config.routes@[r].route.to@.len() as int,
        ));
    } else if r > 0 {
        lemma_wired_are_sinks(
            config,
            m,
            r - 1,
            config.routes@[r - 1].route.from@.len() as int,
            0,
        );
        assert(wired(config, m, r, i, k) == wired(
            config,
            m,
            r - 1,
            config.routes@[r - 1].route.from@.len() as int,
            0,
        ));
    } else {
        assert(wired(config, m, r, i, k).len() == 0);
    }
}

/// A built pipeline has no cycle: every output of a module leads to a module
/// that has a mailbox and no outputs of its own.
pub proof fn law_no_feedback(config: Configuration, m: int, j: int)
    requires
        build_error(config) is None,
        config.modules@.len() <= usize::MAX,
        0 <= j < wired_outputs(config, m).len(),
    ensures
        ({
            let t = wired_outputs(config, m)[j].target;
            &&& t < config.modules@.len()
            &&& can_receive_of(config.modules@[t as int].config)
            &&& !can_emit_of(config.modules@[t as int].config)
            &&& wired_outputs(config, t as int).len() == 0
        }),
{
    let routes = config.routes@.len() as int;
    lemma_sink_fault_from(config, 0, 0);
    lemma_source_fault_from(config, 0, 0);
    lemma_wired_are_sinks(config, m, routes, 0, 0);
    let link = wired_outputs(config, m)[j];
    let t = link.target;
    assert(is_sink_link(config, link));
    let (x, y) = choose|x: int, y: int|
        is_sink(config, x, y) && #[trigger] sink_link(config, x, y) == link;
    assert(sink_check(config, x, y) is None);
    lemma_position_from(config.ids(), sink_id(config, x, y), 0);
    assert forall|a: int, b: int|
        is_source(config, a, b) && #[trigger] position(config.ids(), source_id(config, a, b))
            == Some(t as int) implies config.routes@[a].route.to@.len() == 0 by {
        assert(source_check(config, a, b) is None);
    }
    lemma_wired_nothing(config, t as int, routes, 0, 0);
}

/// Once the build has succeeded, every source of a route has a module, every
/// sink of the route has a module with a mailbox, and the source holds a send
/// endpoint to the mailbox of the sink.
pub proof fn law_route_is_complete(config: Configuration, r: int, i: int, k: int)
    requires
        build_error(config) is None,
        is_source(config, r, i),
        is_sink(config, r, k),
    ensures
        position(config.ids(), source_id(config, r, i)) is Some,
        position(config.ids(), sink_id(config, r, k)) is Some,
        wired_outputs(config, position(config.ids(), source_id(config, r, i))->0).contains(
            sink_link(config, r, k),
        ),
{
    lemma_sink_fault_from(config, 0, 0);
    lemma_source_fault_from(config, 0, 0);
    assert(sink_check(config, r, k) is None);
    assert(source_check(config, r, i) is None);
    let m = position(config.ids(), source_id(config, r, i))->0;
    let t = sink_link(config, r, k);
    let before = wired(config, m, r, i, k);
    assert(wired(config, m, r, i, k + 1) == before.push(t));
    assert(before.push(t)[before.len() as int] == t);
    if k + 1 == config.routes@[r].route.to@.len() {
        assert(wired(config, m, r, i + 1, 0) == wired(config, m, r, i, k + 1));
        lemma_wired_grows(config, m, t, r, i + 1, 0, config.routes@.len() as int, 0, 0);
    } else {
        lemma_wired_grows(config, m, t, r, i, k + 1, config.routes@.len() as int, 0, 0);
    }
}

} // verus!
