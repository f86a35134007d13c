use vstd::prelude::*;

verus! {

/// What modules exchange. `Start` and `Stop` drive the lifecycle; the payload
/// of `Data` is interpreted by module implementations only.
#[derive(Debug, Clone, PartialEq, Eq)]
pub enum Event {
    Start,
    Stop,
    Data(String),
}

/// The lifecycle meaning of an event, with the payload left out.
#[derive(Debug, Clone, Copy, PartialEq, Eq, Structural)]
pub enum Signal {
    Start,
    Stop,
    Data,
}

impl Event {
    /// The `Data` event that carries `payload`.
    pub fn data(payload: &str) -> (e: Event)
        ensures
            e matches Event::Data(s) && s@ == payload@,
    {
        Event::Data(payload.to_owned())
    }

    pub open spec fn signal_of(self) -> Signal {
        match self {
            Event::Start => Signal::Start,
            Event::Stop => Signal::Stop,
            Event::Data(_) => Signal::Data,
        }
    }

    /// The event's lifecycle meaning.
    pub fn signal(&self) -> (s: Signal)
        ensures
            s == self.signal_of(),
    {
        match self {
            Event::Start => Signal::Start,
            Event::Stop => Signal::Stop,
            Event::Data(_) => Signal::Data,
        }
    }
}

} // verus!
