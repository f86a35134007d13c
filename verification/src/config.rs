use vstd::prelude::*;

verus! {

/// The shape of a configuration value.
#[derive(Debug, Clone, Copy, PartialEq, Eq, Structural)]
pub enum ValueKind {
    Usize,
    String,
    Float,
    Integer,
}

/// One value of a module's configuration bag. A floating point value is kept
/// as the 64 bits of its IEEE 754 encoding.
#[derive(Debug, Clone, PartialEq, Eq)]
pub enum ConfigValue {
    Usize(usize),
    String(String),
    Float(u64),
    Integer(i32),
}

/// Why a module could not be built from its configuration.
#[derive(Debug, Clone, PartialEq, Eq)]
pub enum ConfigError {
    /// A mandatory key is absent.
    MissingKey { key: String },
    /// A key holds a value of another shape than the one asked for.
    TypeMismatch { key: String, expected: ValueKind, found: ValueKind },
    /// The declared kind names no module implementation.
    UnknownKind { kind: String },
    /// The module's identifier is empty.
    EmptyId,
    /// An earlier module bears the same identifier.
    DuplicateId { id: String },
    /// A key holds a number beyond what the module accepts.
    OutOfRange { key: String },
}

/// `ConfigError` over sequences of characters.
pub enum ConfigErrorView {
    MissingKey { key: Seq<char> },
    TypeMismatch { key: Seq<char>, expected: ValueKind, found: ValueKind },
    UnknownKind { kind: Seq<char> },
    EmptyId,
    DuplicateId { id: Seq<char> },
    OutOfRange { key: Seq<char> },
}

impl View for ConfigError {
    type V = ConfigErrorView;

    open spec fn view(&self) -> ConfigErrorView {
        match *self {
            ConfigError::MissingKey { key } => ConfigErrorView::MissingKey { key: key@ },
            ConfigError::TypeMismatch { key, expected, found } => ConfigErrorView::TypeMismatch {
                key: key@,
                expected,
                found,
            },
            ConfigError::UnknownKind { kind } => ConfigErrorView::UnknownKind { kind: kind@ },
            ConfigError::EmptyId => ConfigErrorView::EmptyId,
            ConfigError::DuplicateId { id } => ConfigErrorView::DuplicateId { id: id@ },
            ConfigError::OutOfRange { key } => ConfigErrorView::OutOfRange { key: key@ },
        }
    }
}

impl ConfigValue {
    pub open spec fn kind_of(self) -> ValueKind {
        match self {
            ConfigValue::Usize(_) => ValueKind::Usize,
            ConfigValue::String(_) => ValueKind::String,
            ConfigValue::Float(_) => ValueKind::Float,
            ConfigValue::Integer(_) => ValueKind::Integer,
        }
    }

    /// The shape of this value.
    pub fn kind(&self) -> (k: ValueKind)
        ensures
            k == self.kind_of(),
    {
        match self {
            ConfigValue::Usize(_) => ValueKind::Usize,
            ConfigValue::String(_) => ValueKind::String,
            ConfigValue::Float(_) => ValueKind::Float,
            ConfigValue::Integer(_) => ValueKind::Integer,
        }
    }

    /// The text of a string value; any other shape is refused, never coerced.
    pub fn into_string(self) -> (r: Result<String, ValueKind>)
        ensures
            match self {
                ConfigValue::String(s) => r == Ok::<String, ValueKind>(s),
                _ => r == Err::<String, ValueKind>(self.kind_of()),
            },
    {
        match self {
            ConfigValue::String(s) => Ok(s),
            ConfigValue::Usize(_) => Err(ValueKind::Usize),
            ConfigValue::Float(_) => Err(ValueKind::Float),
            ConfigValue::Integer(_) => Err(ValueKind::Integer),
        }
    }

    /// The number of an unsigned value; any other shape is refused.
    pub fn into_usize(self) -> (r: Result<usize, ValueKind>)
        ensures
            match self {
                ConfigValue::Usize(n) => r == Ok::<usize, ValueKind>(n),
                _ => r == Err::<usize, ValueKind>(self.kind_of()),
            },
    {
        match self {
            ConfigValue::Usize(n) => Ok(n),
            ConfigValue::String(_) => Err(ValueKind::String),
            ConfigValue::Float(_) => Err(ValueKind::Float),
            ConfigValue::Integer(_) => Err(ValueKind::Integer),
        }
    }

    /// The encoding of a floating point value; any other shape is refused.
    pub fn into_float_bits(self) -> (r: Result<u64, ValueKind>)
        ensures
            match self {
                ConfigValue::Float(b) => r == Ok::<u64, ValueKind>(b),
                _ => r == Err::<u64, ValueKind>(self.kind_of()),
            },
    {
        match self {
            ConfigValue::Float(b) => Ok(b),
            ConfigValue::String(_) => Err(ValueKind::String),
            ConfigValue::Usize(_) => Err(ValueKind::Usize),
            ConfigValue::Integer(_) => Err(ValueKind::Integer),
        }
    }

    /// The number of a signed value; any other shape is refused.
    pub fn into_integer(self) -> (r: Result<i32, ValueKind>)
        ensures
            match self {
                ConfigValue::Integer(n) => r == Ok::<i32, ValueKind>(n),
                _ => r == Err::<i32, ValueKind>(self.kind_of()),
            },
    {
        match self {
            ConfigValue::Integer(n) => Ok(n),
            ConfigValue::String(_) => Err(ValueKind::String),
            ConfigValue::Usize(_) => Err(ValueKind::Usize),
            ConfigValue::Float(_) => Err(ValueKind::Float),
        }
    }

    /// A copy of this value.
    pub fn duplicate(&self) -> (c: ConfigValue)
        ensures
            same_value(c, *self),
    {
        match self {
            ConfigValue::Usize(n) => ConfigValue::Usize(*n),
            ConfigValue::String(s) => ConfigValue::String(s.clone()),
            ConfigValue::Float(b) => ConfigValue::Float(*b),
            ConfigValue::Integer(n) => ConfigValue::Integer(*n),
        }
    }
}

/// The first position at or after `from` at which `keys` holds `key`.
pub open spec fn position_from(keys: Seq<Seq<char>>, key: Seq<char>, from: int) -> Option<int>
    decreases keys.len() - from,
{
    if from < 0 || from >= keys.len() {
        None
    } else if keys[from] == key {
        Some(from)
    } else {
        position_from(keys, key, from + 1)
    }
}

/// The first position at which `keys` holds `key`.
pub open spec fn position(keys: Seq<Seq<char>>, key: Seq<char>) -> Option<int> {
    position_from(keys, key, 0)
}

/// A position found by `position_from` holds the key, lies at or after the
/// start, and no earlier position from the start holds it; without a position
/// no place from the start holds the key.
pub proof fn lemma_position_from(keys: Seq<Seq<char>>, key: Seq<char>, from: int)
    requires
        0 <= from,
    ensures
        match position_from(keys, key, from) {
            Some(i) => from <= i < keys.len() && keys[i] == key && forall|j: int|
                from <= j < i ==> keys[j] != key,
            None => forall|j: int| from <= j < keys.len() ==> keys[j] != key,
        },
    decreases keys.len() - from,
{
    if from < keys.len() && keys[from] != key {
        lemma_position_from(keys, key, from + 1);
    }
}

/// One key of a configuration bag with its value.
#[derive(Debug, Clone, PartialEq, Eq)]
pub struct ConfigEntry {
    pub key: String,
    pub value: ConfigValue,
}

/// A module's declared kind and its bag of typed values. Where a key occurs
/// more than once, its first entry is the one that counts.
#[derive(Debug, Clone, PartialEq, Eq)]
pub struct ModuleConfiguration {
    pub uses: String,
    pub configuration: Vec<ConfigEntry>,
}

impl ModuleConfiguration {
    /// The keys of the bag, in the order of its entries.
    pub open spec fn keys(&self) -> Seq<Seq<char>> {
        Seq::new(self.configuration@.len(), |i: int| self.configuration@[i].key@)
    }

    /// The value that the bag gives to `key`, if any.
    pub open spec fn lookup(&self, key: Seq<char>) -> Option<ConfigValue> {
        match position(self.keys(), key) {
            Some(i) => Some(self.configuration@[i].value),
            None => None,
        }
    }

    /// The value of `key`, if the bag holds the key.
    pub fn get_optional(&self, key: &str) -> (r: Option<ConfigValue>)
        ensures
            r is Some <==> self.lookup(key@) is Some,
            r is Some ==> same_value(r->0, self.lookup(key@)->0),
    {
        let mut i: usize = 0;
        while i < self.configuration.len()
            invariant
                0 <= i <= self.configuration@.len(),
                position_from(self.keys(), key@, i as int) == position(self.keys(), key@),
            decreases self.configuration@.len() - i,
        {
            if str_eq(self.configuration[i].key.as_str(), key) {
                return Some(self.configuration[i].value.duplicate());
            }
            i += 1;
        }
        None
    }

    /// The value of `key`; a bag without the key is refused.
    pub fn get_mandatory(&self, key: &str) -> (r: Result<ConfigValue, ConfigError>)
        ensures
            match r {
                Ok(v) => self.lookup(key@) is Some && same_value(v, self.lookup(key@)->0),
                Err(e) => self.lookup(key@) is None && e@ == (ConfigErrorView::MissingKey {
                    key: key@,
                }),
            },
    {
        match self.get_optional(key) {
            Some(v) => Ok(v),
            None => Err(ConfigError::MissingKey { key: key.to_owned() }),
        }
    }
}

/// Two values of one shape with equal contents.
pub open spec fn same_value(a: ConfigValue, b: ConfigValue) -> bool {
    match (a, b) {
        (ConfigValue::Usize(x), ConfigValue::Usize(y)) => x == y,
        (ConfigValue::String(x), ConfigValue::String(y)) => x@ == y@,
        (ConfigValue::Float(x), ConfigValue::Float(y)) => x == y,
        (ConfigValue::Integer(x), ConfigValue::Integer(y)) => x == y,
        _ => false,
    }
}

/// Whether two texts hold the same characters.
pub fn str_eq(a: &str, b: &str) -> (r: bool)
    ensures
        r == (a@ == b@),
{
    a.to_owned() == b.to_owned()
}

/// What a sender does with an event that a full mailbox does not take.
#[derive(Debug, Clone, Copy, PartialEq, Eq, Structural)]
pub enum OverflowPolicy {
    /// The sending context waits and tries again.
    Block,
    /// The event is dropped and the failure reported.
    Fail,
}

/// A complete connection: every module of `from` gets a send endpoint to the
/// mailbox of every module of `to`. The overflow policy holds for every send
/// over the route.
#[derive(Debug, Clone, PartialEq, Eq)]
pub struct Route {
    pub from: Vec<String>,
    pub to: Vec<String>,
    pub overflow: OverflowPolicy,
}

/// A module's identifier with its configuration.
#[derive(Debug, Clone, PartialEq, Eq)]
pub struct ModuleEntry {
    pub id: String,
    pub config: ModuleConfiguration,
}

/// A route with its name.
#[derive(Debug, Clone, PartialEq, Eq)]
pub struct RouteEntry {
    pub name: String,
    pub route: Route,
}

/// The modules to build and the routes to wire, each in declaration order.
/// The identifiers of the modules are meant to be non-empty and distinct; a
/// pipeline is built from no other configuration.
#[derive(Debug, Clone, PartialEq, Eq)]
pub struct Configuration {
    pub modules: Vec<ModuleEntry>,
    pub routes: Vec<RouteEntry>,
}

impl Configuration {
    /// The identifiers of the configured modules, in order.
    pub open spec fn ids(&self) -> Seq<Seq<char>> {
        Seq::new(self.modules@.len(), |i: int| self.modules@[i].id@)
    }
}

} // verus!
