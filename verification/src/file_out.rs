use vstd::prelude::*;
use crate::channel::{
    open_bounded_mailbox, open_mailbox, receivers_share, sender_capacity, senders_share,
    share_receiver, share_sender, try_take, try_take_within, Intake, MAX_CAPACITY,
};
use crate::config::{ConfigError, ConfigErrorView, ConfigValue, ModuleConfiguration, ValueKind};
use crate::event::Event;
use crate::module::{
    lacks, mandatory_string, state_valid, CapabilityError, Directive, Endpoint, Lifecycle, Module,
    ModuleState, Phase, RegisterError, RuntimeError,
};

verus! {

/// A pure sink: a consumer that drains its one mailbox and writes to a file.
/// It cannot emit. With the optional key `capacity` its mailbox holds at most
/// that many events at a time; without it the mailbox is unbounded.
pub struct FileOut {
    file_path: String,
    capacity: Option<usize>,
    tx: crossbeam_channel::Sender<Event>,
    rx: crossbeam_channel::Receiver<Event>,
    life: Lifecycle,
}

impl FileOut {
    pub closed spec fn path_of(&self) -> Seq<char> {
        self.file_path@
    }

    /// The phase that the module is in.
    pub fn phase(&self) -> (p: Phase)
        ensures
            p == self.state().phase,
    {
        self.life.current_phase()
    }

    /// The background context that is live, if any.
    pub fn context(&self) -> (c: Option<u64>)
        ensures
            c == self.state().live,
    {
        self.life.current()
    }

    pub closed spec fn capacity_of(&self) -> Option<usize> {
        self.capacity
    }

    /// How many events the mailbox holds at most, if it is bounded.
    pub fn capacity(&self) -> (c: Option<usize>)
        ensures
            c == self.capacity_of(),
    {
        self.capacity
    }

    /// The file to write to.
    pub fn file_path(&self) -> (p: &String)
        ensures
            p@ == self.path_of(),
    {
        &self.file_path
    }

    /// The send end that the module keeps of its mailbox.
    pub closed spec fn address(&self) -> crossbeam_channel::Sender<Event> {
        self.tx
    }

    /// The receive end that the module keeps of its mailbox.
    pub closed spec fn inbox(&self) -> crossbeam_channel::Receiver<Event> {
        self.rx
    }

    /// A receive end of the module's mailbox: what a consumer context needs in
    /// order to drain it. It belongs to the channel of the module's own
    /// receive end.
    pub fn receiver(&self) -> (rx: crossbeam_channel::Receiver<Event>)
        ensures
            receivers_share(self.inbox(), rx),
    {
        share_receiver(&self.rx)
    }

    /// Takes the oldest event out of the mailbox, if it holds one.
    pub fn poll(&self) -> (i: Intake) {
        take(&self.rx)
    }

    /// A sink has a mailbox and cannot emit: it has no outputs.
    pub proof fn lemma_sink(&self)
        ensures
            self.state().can_receive,
            !self.state().can_emit,
            self.state().outputs.len() == 0,
    {
    }
}

/// Takes the oldest event out of the mailbox that `rx` is a receive end of,
/// if it holds one.
pub fn take(rx: &crossbeam_channel::Receiver<Event>) -> (i: Intake) {
    try_take(rx)
}

/// Waits up to `wait_ms` milliseconds for an event in the mailbox that `rx`
/// is a receive end of, and takes it out: the one step of a consumer context.
/// A mailbox of capacity 0 takes an event only while a receiver waits.
pub fn take_within(rx: &crossbeam_channel::Receiver<Event>, wait_ms: u16) -> (i: Intake) {
    try_take_within(rx, wait_ms)
}

impl Module for FileOut {
    closed spec fn state(&self) -> ModuleState {
        self.life.with(true, false, Seq::empty())
    }

    closed spec fn valid(&self) -> bool {
        &&& state_valid(self.state())
        &&& sender_capacity(self.tx) == self.capacity
    }

    open spec fn refusal(config: ModuleConfiguration) -> Option<ConfigErrorView> {
        match lacks(config, "path"@, ValueKind::String) {
            Some(e) => Some(e),
            None => match config.lookup("capacity"@) {
                None => None,
                Some(ConfigValue::Usize(n)) => if n <= MAX_CAPACITY {
                    None
                } else {
                    Some(ConfigErrorView::OutOfRange { key: "capacity"@ })
                },
                Some(v) => Some(
                    ConfigErrorView::TypeMismatch {
                        key: "capacity"@,
                        expected: ValueKind::Usize,
                        found: v.kind_of(),
                    },
                ),
            },
        }
    }

    proof fn valid_state(&self) {
    }

    fn initialize(config: &ModuleConfiguration) -> (r: Result<Self, ConfigError>)
        ensures
            r is Ok ==> {
                &&& r->Ok_0.state().can_receive
                &&& !r->Ok_0.state().can_emit
                &&& match config.lookup("path"@) {
                    Some(ConfigValue::String(s)) => s@ == r->Ok_0.path_of(),
                    _ => false,
                }
                &&& match config.lookup("capacity"@) {
                    Some(ConfigValue::Usize(n)) => r->Ok_0.capacity_of() == Some(n),
                    _ => r->Ok_0.capacity_of() is None,
                }
            },
    {
        let file_path = match mandatory_string(config, "path") {
            Ok(p) => p,
            Err(e) => {
                return Err(e);
            },
        };
        let capacity = match config.get_optional("capacity") {
            None => None,
            Some(ConfigValue::Usize(n)) => {
                if n > MAX_CAPACITY {
                    return Err(ConfigError::OutOfRange { key: "capacity".to_owned() });
                }
                Some(n)
            },
            Some(v) => {
                return Err(
                    ConfigError::TypeMismatch {
                        key: "capacity".to_owned(),
                        expected: ValueKind::Usize,
                        found: v.kind(),
                    },
                );
            },
        };
        let (tx, rx) = match capacity {
            Some(n) => open_bounded_mailbox(n),
            None => open_mailbox(),
        };
        Ok(FileOut { file_path, capacity, tx, rx, life: Lifecycle::new() })
    }

    /// Path, capacity and both ends of the mailbox stay.
    fn handle_event(&mut self, event: Event) -> (r: Result<Directive, RuntimeError>)
        ensures
            final(self).path_of() == old(self).path_of(),
            final(self).capacity_of() == old(self).capacity_of(),
            final(self).address() == old(self).address(),
            final(self).inbox() == old(self).inbox(),
    {
        let signal = event.signal();
        proof {
            assert(self.state() == self.life.with(true, false, Seq::empty()));
        }
        self.life.apply(signal)
    }

    /// A send end of the mailbox: it belongs to the channel of the module's
    /// own send end and has the capacity that the module was configured with.
    fn mailbox_address(&self) -> (r: Result<crossbeam_channel::Sender<Event>, CapabilityError>)
        ensures
            r is Ok,
            senders_share(self.address(), r->Ok_0),
            sender_capacity(r->Ok_0) == self.capacity_of(),
    {
        Ok(share_sender(&self.tx))
    }

    /// A sink cannot emit: it always refuses, and nothing of it changes.
    fn register_output(&mut self, endpoint: Endpoint) -> (r: Result<(), RegisterError>)
        ensures
            r == Err::<(), RegisterError>(RegisterError::Capability(CapabilityError::NoOutput)),
            *final(self) == *old(self),
    {
        Err(RegisterError::Capability(CapabilityError::NoOutput))
    }
}

} // verus!
