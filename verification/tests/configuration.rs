use minilog::config::{
    str_eq, ConfigEntry, ConfigError, ConfigValue, ModuleConfiguration, ValueKind,
};
use minilog::file_in::FileIn;
use minilog::file_out::FileOut;
use minilog::module::{mandatory_string, mandatory_usize, Module, Phase};
use minilog::registry::ModuleInstance;

fn entry(key: &str, value: ConfigValue) -> ConfigEntry {
    ConfigEntry { key: key.to_string(), value }
}

fn bag(kind: &str, entries: Vec<ConfigEntry>) -> ModuleConfiguration {
    ModuleConfiguration { uses: kind.to_string(), configuration: entries }
}

fn source_bag() -> ModuleConfiguration {
    bag(
        "source",
        vec![
            entry("path", ConfigValue::String("/tmp/x".to_string())),
            entry("interval", ConfigValue::Usize(10)),
        ],
    )
}

#[test]
fn optional_key_is_found_or_absent() {
    let config = source_bag();
    assert_eq!(config.get_optional("interval"), Some(ConfigValue::Usize(10)));
    assert_eq!(config.get_optional("path"), Some(ConfigValue::String("/tmp/x".to_string())));
    assert_eq!(config.get_optional("missing"), None);
    assert_eq!(config.get_optional(""), None);
}

#[test]
fn first_entry_of_a_repeated_key_counts() {
    let config = bag(
        "source",
        vec![entry("interval", ConfigValue::Usize(1)), entry("interval", ConfigValue::Usize(2))],
    );
    assert_eq!(config.get_optional("interval"), Some(ConfigValue::Usize(1)));
}

#[test]
fn mandatory_key_missing_is_an_error() {
    let config = source_bag();
    assert_eq!(config.get_mandatory("path"), Ok(ConfigValue::String("/tmp/x".to_string())));
    assert_eq!(
        config.get_mandatory("depth"),
        Err(ConfigError::MissingKey { key: "depth".to_string() })
    );
}

#[test]
fn empty_bag_has_no_keys() {
    let config = bag("sink", vec![]);
    assert_eq!(config.get_optional("path"), None);
    assert_eq!(
        config.get_mandatory("path"),
        Err(ConfigError::MissingKey { key: "path".to_string() })
    );
}

#[test]
fn values_convert_only_to_their_own_shape() {
    assert_eq!(ConfigValue::String("a".to_string()).into_string(), Ok("a".to_string()));
    assert_eq!(ConfigValue::Usize(3).into_string(), Err(ValueKind::Usize));
    assert_eq!(ConfigValue::Usize(3).into_usize(), Ok(3));
    assert_eq!(ConfigValue::Integer(-3).into_usize(), Err(ValueKind::Integer));
    assert_eq!(ConfigValue::Integer(-3).into_integer(), Ok(-3));
    assert_eq!(ConfigValue::Float(0).into_integer(), Err(ValueKind::Float));
    let bits = 1.5f64.to_bits();
    assert_eq!(ConfigValue::Float(bits).into_float_bits(), Ok(bits));
    assert_eq!(f64::from_bits(ConfigValue::Float(bits).into_float_bits().unwrap()), 1.5);
    assert_eq!(ConfigValue::String("1.5".to_string()).into_float_bits(), Err(ValueKind::String));
}

#[test]
fn kind_names_the_shape() {
    assert_eq!(ConfigValue::Usize(0).kind(), ValueKind::Usize);
    assert_eq!(ConfigValue::String(String::new()).kind(), ValueKind::String);
    assert_eq!(ConfigValue::Float(0).kind(), ValueKind::Float);
    assert_eq!(ConfigValue::Integer(0).kind(), ValueKind::Integer);
}

#[test]
fn duplicate_keeps_the_value() {
    let v = ConfigValue::String("abc".to_string());
    assert_eq!(v.duplicate(), v);
    assert_eq!(ConfigValue::Integer(-7).duplicate(), ConfigValue::Integer(-7));
}

#[test]
fn texts_compare_by_characters() {
    assert!(str_eq("in", "in"));
    assert!(!str_eq("in", "out"));
    assert!(!str_eq("in", "in "));
    assert!(str_eq("", ""));
}

#[test]
fn mandatory_values_are_typed() {
    let config = source_bag();
    assert_eq!(mandatory_string(&config, "path"), Ok("/tmp/x".to_string()));
    assert_eq!(mandatory_usize(&config, "interval"), Ok(10));
    assert_eq!(
        mandatory_usize(&config, "path"),
        Err(ConfigError::TypeMismatch {
            key: "path".to_string(),
            expected: ValueKind::Usize,
            found: ValueKind::String,
        })
    );
    assert_eq!(
        mandatory_string(&config, "nothing"),
        Err(ConfigError::MissingKey { key: "nothing".to_string() })
    );
}

#[test]
fn source_is_built_from_path_and_interval() {
    let m = match FileIn::initialize(&source_bag()) {
        Ok(m) => m,
        Err(e) => panic!("refused: {:?}", e),
    };
    assert_eq!(m.file_path(), "/tmp/x");
    assert_eq!(m.watch_interval(), 10);
    assert_eq!(m.phase(), Phase::Initialized);
    assert_eq!(m.context(), None);
    assert!(m.outputs().is_empty());
}

#[test]
fn source_without_interval_is_refused() {
    let config = bag("source", vec![entry("path", ConfigValue::String("/tmp/x".to_string()))]);
    match FileIn::initialize(&config) {
        Ok(_) => panic!("built without an interval"),
        Err(e) => assert_eq!(e, ConfigError::MissingKey { key: "interval".to_string() }),
    }
}

#[test]
fn source_path_is_checked_before_interval() {
    let config = bag("source", vec![entry("interval", ConfigValue::Integer(10))]);
    match FileIn::initialize(&config) {
        Ok(_) => panic!("built without a path"),
        Err(e) => assert_eq!(e, ConfigError::MissingKey { key: "path".to_string() }),
    }
}

#[test]
fn source_with_signed_interval_is_refused() {
    let config = bag(
        "source",
        vec![
            entry("path", ConfigValue::String("/tmp/x".to_string())),
            entry("interval", ConfigValue::Integer(10)),
        ],
    );
    match FileIn::initialize(&config) {
        Ok(_) => panic!("built with a signed interval"),
        Err(e) => assert_eq!(
            e,
            ConfigError::TypeMismatch {
                key: "interval".to_string(),
                expected: ValueKind::Usize,
                found: ValueKind::Integer,
            }
        ),
    }
}

#[test]
fn sink_is_built_from_path() {
    let config = bag("sink", vec![entry("path", ConfigValue::String("/tmp/y".to_string()))]);
    let m = match FileOut::initialize(&config) {
        Ok(m) => m,
        Err(e) => panic!("refused: {:?}", e),
    };
    assert_eq!(m.file_path(), "/tmp/y");
    assert_eq!(m.phase(), Phase::Initialized);
    assert_eq!(m.context(), None);
}

#[test]
fn sink_with_numeric_path_is_refused() {
    let config = bag("sink", vec![entry("path", ConfigValue::Float(0))]);
    match FileOut::initialize(&config) {
        Ok(_) => panic!("built with a numeric path"),
        Err(e) => assert_eq!(
            e,
            ConfigError::TypeMismatch {
                key: "path".to_string(),
                expected: ValueKind::String,
                found: ValueKind::Float,
            }
        ),
    }
}

#[test]
fn registry_builds_by_kind() {
    let source = match ModuleInstance::initialize(&source_bag()) {
        Ok(m) => m,
        Err(e) => panic!("refused: {:?}", e),
    };
    assert!(source.as_source().is_some());
    assert!(source.as_sink().is_none());
    let config = bag("sink", vec![entry("path", ConfigValue::String("/tmp/y".to_string()))]);
    let sink = match ModuleInstance::initialize(&config) {
        Ok(m) => m,
        Err(e) => panic!("refused: {:?}", e),
    };
    assert!(sink.as_sink().is_some());
    assert!(sink.as_source().is_none());
}

#[test]
fn registry_refuses_an_unknown_kind() {
    let config = bag("im_kafka", vec![]);
    match ModuleInstance::initialize(&config) {
        Ok(_) => panic!("built an unknown kind"),
        Err(e) => assert_eq!(e, ConfigError::UnknownKind { kind: "im_kafka".to_string() }),
    }
}

#[test]
fn sink_capacity_must_be_unsigned_and_in_range() {
    let path = || entry("path", ConfigValue::String("/tmp/y".to_string()));
    let signed = bag("sink", vec![path(), entry("capacity", ConfigValue::Integer(4))]);
    match FileOut::initialize(&signed) {
        Ok(_) => panic!("built with a signed capacity"),
        Err(e) => assert_eq!(
            e,
            ConfigError::TypeMismatch {
                key: "capacity".to_string(),
                expected: ValueKind::Usize,
                found: ValueKind::Integer,
            }
        ),
    }
    for beyond in [usize::MAX, usize::MAX / 128 + 1] {
        let huge = bag("sink", vec![path(), entry("capacity", ConfigValue::Usize(beyond))]);
        match FileOut::initialize(&huge) {
            Ok(_) => panic!("built with a capacity that no channel has"),
            Err(e) => assert_eq!(e, ConfigError::OutOfRange { key: "capacity".to_string() }),
        }
    }
    let large = bag("sink", vec![path(), entry("capacity", ConfigValue::Usize(65536))]);
    match FileOut::initialize(&large) {
        Ok(m) => {
            assert_eq!(m.capacity(), Some(65536));
            assert_eq!(m.mailbox_address().unwrap().capacity(), Some(65536));
        }
        Err(e) => panic!("refused: {:?}", e),
    }
    let rendezvous = bag("sink", vec![path(), entry("capacity", ConfigValue::Usize(0))]);
    match FileOut::initialize(&rendezvous) {
        Ok(m) => assert_eq!(m.capacity(), Some(0)),
        Err(e) => panic!("refused: {:?}", e),
    }
}
