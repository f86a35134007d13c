use minilog::channel::{Delivery, Intake};
use minilog::config::{
    ConfigEntry, ConfigError, ConfigValue, Configuration, ModuleConfiguration, ModuleEntry,
    OverflowPolicy, Route, RouteEntry,
};
use minilog::event::Event;
use minilog::file_in::emit;
use minilog::module::{Directive, Link, Module, Phase};
use minilog::pipeline::{BuildError, Pipeline, RunningHandle};
use minilog::wiring::{find_module, WiringError, WiringFault};

fn source(id: &str, path: &str, interval: usize) -> ModuleEntry {
    ModuleEntry {
        id: id.to_string(),
        config: ModuleConfiguration {
            uses: "source".to_string(),
            configuration: vec![
                ConfigEntry { key: "path".to_string(), value: ConfigValue::String(path.to_string()) },
                ConfigEntry { key: "interval".to_string(), value: ConfigValue::Usize(interval) },
            ],
        },
    }
}

fn sink(id: &str, path: &str) -> ModuleEntry {
    ModuleEntry {
        id: id.to_string(),
        config: ModuleConfiguration {
            uses: "sink".to_string(),
            configuration: vec![ConfigEntry {
                key: "path".to_string(),
                value: ConfigValue::String(path.to_string()),
            }],
        },
    }
}

fn route(name: &str, from: &[&str], to: &[&str]) -> RouteEntry {
    RouteEntry {
        name: name.to_string(),
        route: Route {
            from: from.iter().map(|s| s.to_string()).collect(),
            to: to.iter().map(|s| s.to_string()).collect(),
            overflow: OverflowPolicy::Fail,
        },
    }
}

fn blocking_route(name: &str, from: &[&str], to: &[&str]) -> RouteEntry {
    let mut entry = route(name, from, to);
    entry.route.overflow = OverflowPolicy::Block;
    entry
}

fn failing(targets: &[usize]) -> Vec<Link> {
    targets.iter().map(|t| Link { target: *t, overflow: OverflowPolicy::Fail }).collect()
}

fn in_out() -> Configuration {
    Configuration {
        modules: vec![source("in", "/tmp/x", 10), sink("out", "/tmp/y")],
        routes: vec![route("r1", &["in"], &["out"])],
    }
}

fn built(config: &Configuration) -> Pipeline {
    match Pipeline::build(config) {
        Ok(p) => p,
        Err(e) => panic!("build failed: {:?}", e),
    }
}

fn build_error(config: &Configuration) -> BuildError {
    match Pipeline::build(config) {
        Ok(_) => panic!("build succeeded"),
        Err(e) => e,
    }
}

fn started(config: &Configuration) -> RunningHandle {
    match built(config).start() {
        Ok(l) => l.handle,
        Err(_) => panic!("start failed"),
    }
}

fn outputs_of(handle: &RunningHandle, slot: usize) -> Vec<Link> {
    handle.module(slot).unwrap().as_source().unwrap().outputs()
}

fn wiring(route: &str, module: &str, fault: WiringFault) -> BuildError {
    BuildError::Wiring(WiringError { route: route.to_string(), module: module.to_string(), fault })
}

#[test]
fn scenario_source_reaches_sink() {
    let pipeline = built(&in_out());
    assert_eq!(pipeline.len(), 2);
    assert_eq!(pipeline.id_of(0), Some(&"in".to_string()));
    assert_eq!(pipeline.id_of(1), Some(&"out".to_string()));
    assert_eq!(pipeline.id_of(2), None);
    let before = pipeline.module(0).unwrap().as_source().unwrap();
    assert_eq!(before.phase(), Phase::Initialized);
    assert_eq!(before.outputs(), failing(&[1]));
    assert_eq!(before.watch_interval(), 10);
    let launch = match pipeline.start() {
        Ok(l) => l,
        Err(_) => panic!("start failed"),
    };
    assert_eq!(launch.directives, vec![Directive { cancel: None, spawn: Some(0) }; 2]);
    let handle = launch.handle;
    let producer = handle.module(0).unwrap().as_source().unwrap();
    assert_eq!(producer.phase(), Phase::Running);
    let consumer = handle.module(1).unwrap().as_sink().unwrap();
    assert_eq!(consumer.phase(), Phase::Running);
    assert_eq!(consumer.poll(), Intake::Empty);
    assert_eq!(emit(&producer.output_endpoints(), "Hello world!"), vec![Delivery::Sent]);
    assert_eq!(consumer.poll(), Intake::Event(Event::Data("Hello world!".to_string())));
    assert_eq!(consumer.poll(), Intake::Empty);
}

#[test]
fn scenario_unknown_module_fails_build() {
    let config = Configuration {
        modules: vec![source("in", "/tmp/x", 10), sink("out", "/tmp/y")],
        routes: vec![route("r1", &["in"], &["ghost"])],
    };
    assert_eq!(build_error(&config), wiring("r1", "ghost", WiringFault::UnknownModule));
}

#[test]
fn unknown_source_fails_build() {
    let config = Configuration {
        modules: vec![source("in", "/tmp/x", 10), sink("out", "/tmp/y")],
        routes: vec![route("r0", &["in"], &["out"]), route("r1", &["in", "ghost"], &["out"])],
    };
    assert_eq!(build_error(&config), wiring("r1", "ghost", WiringFault::UnknownModule));
}

#[test]
fn scenario_stop_silences_the_source() {
    let mut handle = started(&in_out());
    let slot = handle.slot_of("in").unwrap();
    assert_eq!(slot, 0);
    let held = handle.module(slot).unwrap().as_source().unwrap().output_endpoints();
    assert_eq!(emit(&held, "early"), vec![Delivery::Sent]);
    assert_eq!(
        handle.dispatch(slot, Event::Stop),
        Some(Ok(Directive { cancel: Some(0), spawn: None }))
    );
    drop(held);
    let stopped = handle.module(slot).unwrap().as_source().unwrap();
    assert_eq!(stopped.phase(), Phase::Stopped);
    assert_eq!(stopped.context(), None);
    assert_eq!(stopped.outputs(), Vec::<Link>::new());
    assert_eq!(emit(&stopped.output_endpoints(), "late"), Vec::<Delivery>::new());
    let consumer = handle.module(1).unwrap().as_sink().unwrap();
    assert_eq!(consumer.phase(), Phase::Running);
    assert_eq!(consumer.poll(), Intake::Event(Event::Data("early".to_string())));
    assert_eq!(consumer.poll(), Intake::Empty);
}

#[test]
fn one_source_feeds_two_sinks_in_order() {
    let config = Configuration {
        modules: vec![source("a", "/tmp/a", 1), sink("b", "/tmp/b"), sink("c", "/tmp/c")],
        routes: vec![route("fan", &["a"], &["b", "c"])],
    };
    let handle = started(&config);
    assert_eq!(outputs_of(&handle, 0), failing(&[1, 2]));
    let endpoints = handle.module(0).unwrap().as_source().unwrap().output_endpoints();
    for payload in ["one", "two", "three"] {
        assert_eq!(emit(&endpoints, payload), vec![Delivery::Sent; 2]);
    }
    for slot in [1, 2] {
        let consumer = handle.module(slot).unwrap().as_sink().unwrap();
        for payload in ["one", "two", "three"] {
            assert_eq!(consumer.poll(), Intake::Event(Event::Data(payload.to_string())));
        }
        assert_eq!(consumer.poll(), Intake::Empty);
    }
}

#[test]
fn routes_connect_every_source_to_every_sink() {
    let config = Configuration {
        modules: vec![
            sink("s0", "/tmp/0"),
            source("a", "/tmp/a", 1),
            sink("s1", "/tmp/1"),
            source("b", "/tmp/b", 2),
        ],
        routes: vec![
            route("first", &["a", "b"], &["s1", "s0"]),
            blocking_route("second", &["b", "b"], &["s0"]),
            route("empty", &["a"], &[]),
        ],
    };
    let pipeline = built(&config);
    assert_eq!(pipeline.module(1).unwrap().as_source().unwrap().outputs(), failing(&[2, 0]));
    let block = Link { target: 0, overflow: OverflowPolicy::Block };
    let mut expected = failing(&[2, 0]);
    expected.push(block);
    expected.push(block);
    assert_eq!(pipeline.module(3).unwrap().as_source().unwrap().outputs(), expected);
    assert!(pipeline.module(4).is_none());
}

#[test]
fn source_named_as_sink_fails_build() {
    let config = Configuration {
        modules: vec![source("in", "/tmp/x", 10), sink("out", "/tmp/y")],
        routes: vec![route("back", &["in"], &["out", "in"])],
    };
    assert_eq!(build_error(&config), wiring("back", "in", WiringFault::NoMailbox));
}

#[test]
fn sink_named_as_source_fails_build() {
    let config = Configuration {
        modules: vec![source("in", "/tmp/x", 10), sink("out", "/tmp/y")],
        routes: vec![route("wrong", &["in", "out"], &["out"])],
    };
    assert_eq!(build_error(&config), wiring("wrong", "out", WiringFault::NoOutput));
}

#[test]
fn sink_as_source_of_a_route_without_sinks_is_accepted() {
    let config = Configuration {
        modules: vec![sink("out", "/tmp/y")],
        routes: vec![route("idle", &["out"], &[])],
    };
    assert_eq!(built(&config).len(), 1);
}

#[test]
fn sinks_of_all_routes_are_resolved_before_any_source() {
    let config = Configuration {
        modules: vec![source("in", "/tmp/x", 10), sink("out", "/tmp/y")],
        routes: vec![route("r1", &["nobody"], &["out"]), route("r2", &["in"], &["ghost"])],
    };
    assert_eq!(build_error(&config), wiring("r2", "ghost", WiringFault::UnknownModule));
}

#[test]
fn refused_module_stops_the_build_before_wiring() {
    let mut config = in_out();
    config.modules[1].config.configuration.clear();
    config.routes.push(route("r2", &["ghost"], &["ghost"]));
    assert_eq!(
        build_error(&config),
        BuildError::Config {
            module: "out".to_string(),
            error: ConfigError::MissingKey { key: "path".to_string() },
        }
    );
}

#[test]
fn unknown_kind_stops_the_build() {
    let mut config = in_out();
    config.modules[0].config.uses = "im_file".to_string();
    assert_eq!(
        build_error(&config),
        BuildError::Config {
            module: "in".to_string(),
            error: ConfigError::UnknownKind { kind: "im_file".to_string() },
        }
    );
}

#[test]
fn empty_configuration_builds_an_empty_pipeline() {
    let config = Configuration { modules: vec![], routes: vec![] };
    let pipeline = built(&config);
    assert_eq!(pipeline.len(), 0);
    let launch = match pipeline.start() {
        Ok(l) => l,
        Err(_) => panic!("start failed"),
    };
    assert!(launch.directives.is_empty());
}

#[test]
fn find_module_gives_the_first_slot() {
    let config = Configuration {
        modules: vec![source("in", "/tmp/x", 10), sink("out", "/tmp/y"), sink("out", "/tmp/z")],
        routes: vec![],
    };
    assert_eq!(find_module(&config, "in"), Some(0));
    assert_eq!(find_module(&config, "out"), Some(1));
    assert_eq!(find_module(&config, "ghost"), None);
}

#[test]
fn repeated_identifier_stops_the_build() {
    let config = Configuration {
        modules: vec![source("in", "/tmp/x", 10), sink("out", "/tmp/y"), sink("out", "/tmp/z")],
        routes: vec![],
    };
    assert_eq!(
        build_error(&config),
        BuildError::Config {
            module: "out".to_string(),
            error: ConfigError::DuplicateId { id: "out".to_string() },
        }
    );
}

#[test]
fn empty_identifier_stops_the_build() {
    let config = Configuration { modules: vec![sink("", "/tmp/y")], routes: vec![] };
    assert_eq!(
        build_error(&config),
        BuildError::Config { module: String::new(), error: ConfigError::EmptyId }
    );
}

#[test]
fn restart_replaces_every_context() {
    let mut handle = started(&in_out());
    assert_eq!(
        handle.restart(),
        vec![Ok(Directive { cancel: Some(0), spawn: Some(1) }); 2]
    );
    assert_eq!(handle.module(0).unwrap().as_source().unwrap().context(), Some(1));
    assert_eq!(handle.module(1).unwrap().as_sink().unwrap().context(), Some(1));
    assert_eq!(outputs_of(&handle, 0), failing(&[1]));
}

#[test]
fn stop_cancels_every_live_context() {
    let mut handle = started(&in_out());
    assert_eq!(handle.dispatch(1, Event::Stop), Some(Ok(Directive { cancel: Some(0), spawn: None })));
    assert_eq!(handle.stop(), vec![Some(0), None]);
    assert_eq!(handle.module(0).unwrap().as_source().unwrap().phase(), Phase::Stopped);
    assert_eq!(handle.module(1).unwrap().as_sink().unwrap().phase(), Phase::Stopped);
    assert_eq!(handle.stop(), vec![None, None]);
    assert_eq!(handle.len(), 2);
    assert_eq!(handle.id_of(1), Some(&"out".to_string()));
}

#[test]
fn dispatch_to_a_missing_slot_does_nothing() {
    let mut handle = started(&in_out());
    assert_eq!(handle.dispatch(2, Event::Start), None);
    assert_eq!(handle.slot_of("ghost"), None);
    assert_eq!(handle.slot_of("out"), Some(1));
    assert_eq!(handle.module(0).unwrap().as_source().unwrap().context(), Some(0));
}

#[test]
fn built_endpoints_lead_to_the_mailboxes_of_their_targets() {
    let config = Configuration {
        modules: vec![source("a", "/tmp/a", 1), sink("b", "/tmp/b"), sink("c", "/tmp/c")],
        routes: vec![route("fan", &["a"], &["c", "b"])],
    };
    let pipeline = built(&config);
    let endpoints = pipeline.module(0).unwrap().as_source().unwrap().output_endpoints();
    assert_eq!(endpoints.len(), 2);
    for endpoint in endpoints.iter() {
        let target = pipeline.module(endpoint.link.target).unwrap();
        let address = target.mailbox_address().unwrap();
        assert!(endpoint.tx.same_channel(&address));
    }
    assert_eq!(endpoints[0].link.target, 2);
    assert_eq!(endpoints[1].link.target, 1);
    assert!(!endpoints[0].tx.same_channel(&endpoints[1].tx));
}
