//! Command-line settings and the quality-of-service policies that they
//! stand for.

use vstd::prelude::*;

verus! {

/// The durability letter given on the command line.
#[derive(Clone, Copy, Debug, PartialEq, Eq, Structural)]
pub enum DurabilityArg {
    V,
    L,
    T,
    P,
}

/// The reliability word given on the command line.
#[derive(Clone, Copy, Debug, PartialEq, Eq, Structural)]
pub enum ReliabilityArg {
    Reliable,
    BestEffort,
}

/// The role that the client plays.
#[derive(Clone, Copy, Debug, PartialEq, Eq, Structural)]
pub enum Command {
    /// Act as publisher
    Publish,
    /// Act as subscriber
    Subscribe,
}

/// How hard the middleware tries to deliver a sample.
#[derive(Clone, Copy, Debug, PartialEq, Eq, Structural)]
pub enum Reliability {
    BestEffort,
    Reliable { max_blocking_seconds: i32 },
}

/// How long the middleware keeps samples for readers that join late.
#[derive(Clone, Copy, Debug, PartialEq, Eq, Structural)]
pub enum Durability {
    Volatile,
    TransientLocal,
    Transient,
    Persistent,
}

/// How many samples of one instance the middleware keeps.
#[derive(Clone, Copy, Debug, PartialEq, Eq, Structural)]
pub enum History {
    KeepAll,
    KeepLast { depth: i32 },
}

/// The settings of one run, as given on the command line. The two intervals
/// that are given in fractional seconds, the deadline and the time-based
/// filter, are not among them.
#[derive(Debug)]
pub struct Args {
    /// Sets the DDS domain id number
    pub domain_id: u16,
    /// Sets the topic name
    pub topic: String,
    /// Color to publish (or filter)
    pub color: String,
    /// Set durability
    pub durability: DurabilityArg,
    pub command: Command,
    pub reliability: Option<ReliabilityArg>,
    /// Keep history depth
    pub history_depth: i32,
    /// Set a 'partition' string
    pub partition: Option<String>,
    /// Set ownership strength [-1: SHARED]
    pub ownership_strength: Option<u16>,
}

/// The reliability policy for what the command line said: reliable without
/// blocking where it asked for it, best effort where it asked for that or
/// said nothing.
pub open spec fn reliability_for(asked: Option<ReliabilityArg>) -> Reliability {
    if asked == Some(ReliabilityArg::Reliable) {
        Reliability::Reliable { max_blocking_seconds: 0 }
    } else {
        Reliability::BestEffort
    }
}

/// The durability policy that a letter stands for.
pub open spec fn durability_for(letter: DurabilityArg) -> Durability {
    match letter {
        DurabilityArg::V => Durability::Volatile,
        DurabilityArg::L => Durability::TransientLocal,
        DurabilityArg::T => Durability::Transient,
        DurabilityArg::P => Durability::Persistent,
    }
}

/// The history policy for a depth: a negative depth asks to keep
/// everything, any other depth to keep that many samples.
pub open spec fn history_for(depth: i32) -> History {
    if depth < 0 {
        History::KeepAll
    } else {
        History::KeepLast { depth }
    }
}

impl Command {
    /// Whether this role writes samples.
    pub fn publishes(&self) -> (yes: bool)
        ensures
            yes == (*self == Command::Publish),
    {
        match self {
            Command::Publish => true,
            Command::Subscribe => false,
        }
    }

    /// Whether this role reads samples.
    pub fn subscribes(&self) -> (yes: bool)
        ensures
            yes == (*self == Command::Subscribe),
    {
        match self {
            Command::Publish => false,
            Command::Subscribe => true,
        }
    }
}

impl Args {
    /// The reliability policy that was asked for: best effort unless the
    /// command line says reliable, and reliable without blocking then.
    pub fn reliability(&self) -> (policy: Reliability)
        ensures
            policy == reliability_for(self.reliability),
    {
        match self.reliability {
            Some(ReliabilityArg::Reliable) => Reliability::Reliable { max_blocking_seconds: 0 },
            Some(ReliabilityArg::BestEffort) | None => Reliability::BestEffort,
        }
    }

    /// The durability policy that the letter on the command line stands for.
    pub fn durability(&self) -> (policy: Durability)
        ensures
            policy == durability_for(self.durability),
    {
        match self.durability {
            DurabilityArg::V => Durability::Volatile,
            DurabilityArg::L => Durability::TransientLocal,
            DurabilityArg::T => Durability::Transient,
            DurabilityArg::P => Durability::Persistent,
        }
    }

    /// The history policy for the depth on the command line: a negative
    /// depth keeps all samples, any other depth keeps the last that many.
    pub fn history_depth(&self) -> (policy: History)
        ensures
            policy == history_for(self.history_depth),
    {
        let depth = self.history_depth;
        if depth < 0 {
            History::KeepAll
        } else {
            History::KeepLast { depth }
        }
    }
}

} // verus!
