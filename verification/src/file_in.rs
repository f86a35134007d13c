use vstd::prelude::*;
use crate::channel::{sender_capacity, try_deliver, Delivery};
use crate::config::{
    ConfigError, ConfigErrorView, ConfigValue, ModuleConfiguration, OverflowPolicy, ValueKind,
};
use crate::event::{Event, Signal};
use crate::module::{
    continues, lacks, links_of, mandatory_string, mandatory_usize, state_valid, CapabilityError, Directive,
    Endpoint, Lifecycle, Link, Module, ModuleState, Phase, RegisterError, RuntimeError,
};

verus! {

/// A pure source: a periodic producer that watches a file and emits to every
/// registered output. It has no mailbox.
pub struct FileIn {
    file_path: String,
    watch_interval: usize,
    outputs: Vec<Endpoint>,
    life: Lifecycle,
}

impl FileIn {
    pub closed spec fn path_of(&self) -> Seq<char> {
        self.file_path@
    }

    pub closed spec fn interval_of(&self) -> usize {
        self.watch_interval
    }

    /// The endpoints that were registered and not released, in order.
    pub closed spec fn endpoints(&self) -> Seq<Endpoint> {
        self.outputs@
    }

    /// A source has no mailbox and can emit, and its outputs are the links of
    /// its endpoints.
    pub proof fn lemma_source(&self)
        ensures
            !self.state().can_receive,
            self.state().can_emit,
            self.state().outputs == links_of(self.endpoints()),
    {
    }

    /// The phase that the module is in.
    pub fn phase(&self) -> (p: Phase)
        ensures
            p == self.state().phase,
    {
        self.life.current_phase()
    }

    /// The background context that is live, if any.
    pub fn context(&self) -> (c: Option<u64>)
        ensures
            c == self.state().live,
    {
        self.life.current()
    }

    /// The file to watch.
    pub fn file_path(&self) -> (p: &String)
        ensures
            p@ == self.path_of(),
    {
        &self.file_path
    }

    /// The time between two emissions of the producer.
    pub fn watch_interval(&self) -> (n: usize)
        ensures
            n == self.interval_of(),
    {
        self.watch_interval
    }

    /// The links that the module emits over, in order of registration.
    pub fn outputs(&self) -> (slots: Vec<Link>)
        requires
            self.valid(),
        ensures
            slots@ == self.state().outputs,
    {
        let mut slots: Vec<Link> = Vec::new();
        let mut i: usize = 0;
        while i < self.outputs.len()
            invariant
                0 <= i <= self.outputs@.len(),
                slots@ == links_of(self.outputs@).subrange(0, i as int),
            decreases self.outputs@.len() - i,
        {
            slots.push(self.outputs[i].link);
            proof {
                assert(slots@ =~= links_of(self.outputs@).subrange(0, i + 1));
            }
            i += 1;
        }
        proof {
            assert(slots@ =~= links_of(self.outputs@));
        }
        slots
    }

    /// A send end for each output, in order of registration: what a producer
    /// context needs in order to emit.
    pub fn output_endpoints(&self) -> (endpoints: Vec<Endpoint>)
        requires
            self.valid(),
        ensures
            links_of(endpoints@) == self.state().outputs,
            endpoints@.len() == self.endpoints().len(),
            forall|i: int|
                0 <= i < endpoints@.len() ==> (#[trigger] endpoints@[i]).link
                    == self.endpoints()[i].link && continues(
                    self.endpoints()[i].tx,
                    endpoints@[i].tx,
                ),
    {
        let mut endpoints: Vec<Endpoint> = Vec::new();
        let mut i: usize = 0;
        while i < self.outputs.len()
            invariant
                0 <= i <= self.outputs@.len(),
                endpoints@.len() == i,
                forall|x: int|
                    0 <= x < i ==> (#[trigger] endpoints@[x]).link == self.outputs@[x].link
                        && continues(self.outputs@[x].tx, endpoints@[x].tx),
            decreases self.outputs@.len() - i,
        {
            endpoints.push(self.outputs[i].share());
            i += 1;
        }
        proof {
            assert(links_of(endpoints@) =~= links_of(self.outputs@));
        }
        endpoints
    }
}

/// Sends one `Data` event with `payload` to each of `outputs`, in order, and
/// says for each what became of it. A mailbox that is closed or full does not
/// keep the others from getting theirs.
pub fn emit(outputs: &Vec<Endpoint>, payload: &str) -> (deliveries: Vec<Delivery>)
    ensures
        deliveries@.len() == outputs@.len(),
        forall|i: int|
            0 <= i < outputs@.len() ==> (#[trigger] deliveries@[i] == Delivery::Full
                ==> sender_capacity(outputs@[i].tx) is Some),
{
    let mut deliveries: Vec<Delivery> = Vec::new();
    let mut i: usize = 0;
    while i < outputs.len()
        invariant
            0 <= i <= outputs@.len(),
            deliveries@.len() == i,
            forall|x: int|
                0 <= x < i ==> (#[trigger] deliveries@[x] == Delivery::Full ==> sender_capacity(
                    outputs@[x].tx,
                ) is Some),
        decreases outputs@.len() - i,
    {
        deliveries.push(deliver(&outputs[i], payload));
        i += 1;
    }
    deliveries
}

/// Sends one `Data` event with `payload` to `endpoint` and says what became
/// of it: what a producer context calls again for an output that is to be
/// retried. Whether the event gets through is up to the mailbox; a mailbox
/// without a capacity is never full.
pub fn deliver(endpoint: &Endpoint, payload: &str) -> (d: Delivery)
    ensures
        d == Delivery::Full ==> sender_capacity(endpoint.tx) is Some,
{
    try_deliver(&endpoint.tx, Event::data(payload))
}

/// What the sending context does about one output after a send.
#[derive(Debug, Clone, Copy, PartialEq, Eq, Structural)]
pub enum Verdict {
    /// The event is in the mailbox: nothing to do.
    Delivered,
    /// The mailbox was full and the route blocks: wait and send again.
    Retry,
    /// The event was dropped: report it.
    Failed,
}

/// The verdict on an output with overflow policy `policy` after a send with
/// the outcome `delivery`. A send that never happened counts as failed.
pub open spec fn verdict_of(policy: OverflowPolicy, delivery: Option<Delivery>) -> Verdict {
    match delivery {
        Some(Delivery::Sent) => Verdict::Delivered,
        Some(Delivery::Full) => match policy {
            OverflowPolicy::Block => Verdict::Retry,
            OverflowPolicy::Fail => Verdict::Failed,
        },
        Some(Delivery::Closed) => Verdict::Failed,
        None => Verdict::Failed,
    }
}

/// The failure that a send over `link` with the outcome `delivery` is for the
/// sending module, if it is one: the event was dropped.
pub open spec fn failure_of(link: Link, delivery: Delivery) -> Option<RuntimeError> {
    match delivery {
        Delivery::Sent => None,
        Delivery::Closed => Some(RuntimeError::MailboxClosed { target: link.target }),
        Delivery::Full => match link.overflow {
            OverflowPolicy::Block => None,
            OverflowPolicy::Fail => Some(RuntimeError::MailboxFull { target: link.target }),
        },
    }
}

/// What the sending context does about `endpoint` after a send with the
/// outcome `delivery`, and the failure to report, if the event was dropped.
pub fn verdict(endpoint: &Endpoint, delivery: Delivery) -> (r: (Verdict, Option<RuntimeError>))
    ensures
        r.0 == verdict_of(endpoint.link.overflow, Some(delivery)),
        r.1 == failure_of(endpoint.link, delivery),
        r.0 == Verdict::Failed <==> r.1 is Some,
{
    match delivery {
        Delivery::Sent => (Verdict::Delivered, None),
        Delivery::Closed => (
            Verdict::Failed,
            Some(RuntimeError::MailboxClosed { target: endpoint.link.target }),
        ),
        Delivery::Full => match endpoint.link.overflow {
            OverflowPolicy::Block => (Verdict::Retry, None),
            OverflowPolicy::Fail => (
                Verdict::Failed,
                Some(RuntimeError::MailboxFull { target: endpoint.link.target }),
            ),
        },
    }
}

/// The delivery number `i` of `deliveries`, if there is one.
pub open spec fn delivery_at(deliveries: Seq<Delivery>, i: int) -> Option<Delivery> {
    if 0 <= i < deliveries.len() {
        Some(deliveries[i])
    } else {
        None
    }
}

/// The verdict on each of `outputs` after a send with the outcomes
/// `deliveries`, in order: a closed mailbox is a reported failure, a full one
/// is a failure or a retry as the route of the output says.
pub fn verdicts(outputs: &Vec<Endpoint>, deliveries: &Vec<Delivery>) -> (r: Vec<Verdict>)
    ensures
        r@.len() == outputs@.len(),
        forall|i: int|
            0 <= i < outputs@.len() ==> #[trigger] r@[i] == verdict_of(
                outputs@[i].link.overflow,
                delivery_at(deliveries@, i),
            ),
{
    let mut r: Vec<Verdict> = Vec::new();
    let mut i: usize = 0;
    while i < outputs.len()
        invariant
            0 <= i <= outputs@.len(),
            r@.len() == i,
            forall|x: int|
                0 <= x < i ==> #[trigger] r@[x] == verdict_of(
                    outputs@[x].link.overflow,
                    delivery_at(deliveries@, x),
                ),
        decreases outputs@.len() - i,
    {
        let verdict = if i < deliveries.len() {
            match deliveries[i] {
                Delivery::Sent => Verdict::Delivered,
                Delivery::Closed => Verdict::Failed,
                Delivery::Full => match outputs[i].link.overflow {
                    OverflowPolicy::Block => Verdict::Retry,
                    OverflowPolicy::Fail => Verdict::Failed,
                },
            }
        } else {
            Verdict::Failed
        };
        r.push(verdict);
        i += 1;
    }
    r
}

impl Module for FileIn {
    closed spec fn state(&self) -> ModuleState {
        self.life.with(false, true, links_of(self.outputs@))
    }

    closed spec fn valid(&self) -> bool {
        state_valid(self.state())
    }

    open spec fn refusal(config: ModuleConfiguration) -> Option<ConfigErrorView> {
        match lacks(config, "path"@, ValueKind::String) {
            Some(e) => Some(e),
            None => lacks(config, "interval"@, ValueKind::Usize),
        }
    }

    proof fn valid_state(&self) {
    }

    fn initialize(config: &ModuleConfiguration) -> (r: Result<Self, ConfigError>)
        ensures
            r is Ok ==> {
                &&& !r->Ok_0.state().can_receive
                &&& r->Ok_0.state().can_emit
                &&& r->Ok_0.endpoints().len() == 0
                &&& match config.lookup("path"@) {
                    Some(ConfigValue::String(s)) => s@ == r->Ok_0.path_of(),
                    _ => false,
                }
                &&& config.lookup("interval"@) == Some(
                    ConfigValue::Usize(r->Ok_0.interval_of()),
                )
            },
    {
        let file_path = match mandatory_string(config, "path") {
            Ok(p) => p,
            Err(e) => {
                return Err(e);
            },
        };
        let watch_interval = match mandatory_usize(config, "interval") {
            Ok(n) => n,
            Err(e) => {
                return Err(e);
            },
        };
        let m = FileIn { file_path, watch_interval, outputs: Vec::new(), life: Lifecycle::new() };
        proof {
            assert(m.state().outputs =~= Seq::empty());
        }
        Ok(m)
    }

    /// Path and interval stay; `Stop` releases every endpoint, any other
    /// event keeps them.
    fn handle_event(&mut self, event: Event) -> (r: Result<Directive, RuntimeError>)
        ensures
            final(self).path_of() == old(self).path_of(),
            final(self).interval_of() == old(self).interval_of(),
            final(self).endpoints() == if event.signal_of() == Signal::Stop {
                Seq::<Endpoint>::empty()
            } else {
                old(self).endpoints()
            },
    {
        let signal = event.signal();
        let ghost before = self.state();
        let ghost out = links_of(self.outputs@);
        proof {
            assert(before == self.life.with(false, true, out));
        }
        let r = self.life.apply(signal);
        match signal {
            Signal::Stop => {
                self.outputs.clear();
                proof {
                    assert(links_of(self.outputs@) =~= Seq::empty());
                    assert(self.outputs@ =~= Seq::<Endpoint>::empty());
                }
            },
            _ => {},
        }
        r
    }

    /// A source has no mailbox: it always refuses.
    fn mailbox_address(&self) -> (r: Result<crossbeam_channel::Sender<Event>, CapabilityError>)
        ensures
            r is Err,
    {
        Err(CapabilityError::NoMailbox)
    }

    /// A source that has handled neither `Start` nor `Stop` keeps `endpoint`
    /// behind those it has; any other source refuses and keeps what it has.
    /// Path and interval stay.
    fn register_output(&mut self, endpoint: Endpoint) -> (r: Result<(), RegisterError>)
        ensures
            r is Ok <==> old(self).state().phase == Phase::Initialized,
            r is Err ==> r->Err_0 == RegisterError::Frozen,
            final(self).endpoints() == if r is Ok {
                old(self).endpoints().push(endpoint)
            } else {
                old(self).endpoints()
            },
            final(self).path_of() == old(self).path_of(),
            final(self).interval_of() == old(self).interval_of(),
    {
        if self.life.is_open() {
            let ghost link = endpoint.link;
            self.outputs.push(endpoint);
            proof {
                assert(links_of(self.outputs@) =~= links_of(old(self).outputs@).push(link));
            }
            Ok(())
        } else {
            Err(RegisterError::Frozen)
        }
    }
}

} // verus!
