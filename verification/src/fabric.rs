//! The channels of one service, opened once before any of its tasks starts.
//!
//! Status reports travel on a queue without a limit, so that a failing task
//! never waits to say so. Messages between neighbouring stages travel on
//! queues of a few slots, so that a slow receiver holds its sender back. Job
//! notifications fan out on a broadcast channel to however many devices are
//! connected. No channel changes its capacity after it was opened.

use crate::bindings::{bounded_pair, broadcast_pair, unbounded_pair, MAX_SLOTS};
use vstd::prelude::*;

verus! {

/// How many messages a channel holds before a sender has to wait.
#[derive(Clone, Copy, Debug, PartialEq, Eq, Structural)]
pub enum Capacity {
    /// No limit: a sender never waits. For status reports and control messages.
    Unbounded,
    /// A fixed number of slots: a sender waits while all of them are taken.
    Bounded(usize),
}

impl Capacity {
    /// A channel of this capacity can be opened: a bounded one has at least
    /// one slot and at most `MAX_SLOTS`.
    pub open spec fn admissible(self) -> bool {
        match self {
            Capacity::Unbounded => true,
            Capacity::Bounded(slots) => 1 <= slots <= MAX_SLOTS,
        }
    }
}

/// The slots of a queue that carries messages between two stages.
pub const DATA_SLOTS: usize = 10;

/// The slots of the queue on which the extranonce is handed over, once.
pub const HANDOFF_SLOTS: usize = 1;

/// The slots of the broadcast channel for job notifications.
pub const NOTIFY_SLOTS: usize = 10;

/// The queues of the pool service.
#[derive(Clone, Copy, Debug, PartialEq, Eq, Structural)]
pub enum PoolChannel {
    /// Status reports, from every task to the loop that watches them.
    Status,
    /// New templates, from the template provider's connection to the pool.
    NewTemplate,
    /// New previous hashes, from the template provider's connection to the pool.
    NewPrevHash,
    /// Solutions, from the pool to the template provider's connection.
    Solution,
    /// The pool's signal that it has taken a message in.
    MessageReceived,
}

/// The queues of the proxy service.
#[derive(Clone, Copy, Debug, PartialEq, Eq, Structural)]
pub enum ProxyChannel {
    /// Status reports, from every task to the loop that watches them.
    Status,
    /// Messages of the mining devices, from their connections to the bridge.
    DownstreamMessages,
    /// Shares, from the bridge to the connection to the pool.
    SubmitShares,
    /// New previous hashes, from the connection to the pool to the bridge.
    NewPrevHash,
    /// New extended jobs, from the connection to the pool to the bridge.
    NewExtendedJob,
    /// The extranonce, handed over once by the connection to the pool.
    Extranonce,
}

impl PoolChannel {
    /// Status reports are never held back; every other queue has
    /// [`DATA_SLOTS`] slots.
    pub open spec fn spec_capacity(&self) -> Capacity {
        match *self {
            PoolChannel::Status => Capacity::Unbounded,
            _ => Capacity::Bounded(DATA_SLOTS),
        }
    }

    /// The capacity that the queue is opened with.
    #[verifier::when_used_as_spec(spec_capacity)]
    pub fn capacity(&self) -> (capacity: Capacity)
        ensures
            capacity == self.spec_capacity(),
            capacity.admissible(),
    {
        match self {
            PoolChannel::Status => Capacity::Unbounded,
            _ => Capacity::Bounded(DATA_SLOTS),
        }
    }
}

impl ProxyChannel {
    /// Status reports and the devices' messages are never held back, the
    /// extranonce has its single slot, every other queue has [`DATA_SLOTS`]
    /// slots.
    pub open spec fn spec_capacity(&self) -> Capacity {
        match *self {
            ProxyChannel::Status => Capacity::Unbounded,
            ProxyChannel::DownstreamMessages => Capacity::Unbounded,
            ProxyChannel::Extranonce => Capacity::Bounded(HANDOFF_SLOTS),
            _ => Capacity::Bounded(DATA_SLOTS),
        }
    }

    /// The capacity that the queue is opened with.
    #[verifier::when_used_as_spec(spec_capacity)]
    pub fn capacity(&self) -> (capacity: Capacity)
        ensures
            capacity == self.spec_capacity(),
            capacity.admissible(),
    {
        match self {
            ProxyChannel::Status => Capacity::Unbounded,
            ProxyChannel::DownstreamMessages => Capacity::Unbounded,
            ProxyChannel::Extranonce => Capacity::Bounded(HANDOFF_SLOTS),
            _ => Capacity::Bounded(DATA_SLOTS),
        }
    }
}

/// One queue with its two ends and the capacity it was opened with.
#[verifier::reject_recursive_types(T)]
pub struct Link<T> {
    tx: async_channel::Sender<T>,
    rx: async_channel::Receiver<T>,
    capacity: Capacity,
}

impl<T> Link<T> {
    /// The capacity that was handed to the channel when it was opened.
    pub closed spec fn spec_capacity(&self) -> Capacity {
        self.capacity
    }

    /// Opens a queue of the given capacity, or none where the capacity is not
    /// admissible.
    pub fn open(capacity: Capacity) -> (link: Option<Self>)
        ensures
            link is Some <==> capacity.admissible(),
            link matches Some(l) ==> l.spec_capacity() == capacity,
    {
        match capacity {
            Capacity::Unbounded => {
                let (tx, rx) = unbounded_pair::<T>();
                Some(Link { tx, rx, capacity })
            },
            Capacity::Bounded(slots) => {
                if 1 <= slots && slots <= MAX_SLOTS {
                    let (tx, rx) = bounded_pair::<T>(slots);
                    Some(Link { tx, rx, capacity })
                } else {
                    None
                }
            },
        }
    }

    /// The capacity the queue was opened with.
    #[verifier::when_used_as_spec(spec_capacity)]
    pub fn capacity(&self) -> (capacity: Capacity)
        ensures
            capacity == self.spec_capacity(),
    {
        self.capacity
    }

    /// Takes the queue apart into its sending and its receiving end.
    pub fn into_ends(self) -> (ends: (async_channel::Sender<T>, async_channel::Receiver<T>))
        ensures
            ends == (self.sender(), self.receiver()),
    {
        (self.tx, self.rx)
    }
}

/// One broadcast channel: its sender, its first receiver and the slots it was opened with.
#[verifier::reject_recursive_types(T)]
pub struct Fanout<T> {
    tx: tokio::sync::broadcast::Sender<T>,
    rx: tokio::sync::broadcast::Receiver<T>,
    slots: usize,
}

impl<T: Clone> Fanout<T> {
    /// The number of slots that was handed to the channel when it was opened.
    pub closed spec fn spec_slots(&self) -> usize {
        self.slots
    }

    /// Opens a broadcast channel of `slots` slots, or none unless 1 <= `slots` <= [`MAX_SLOTS`].
    pub fn open(slots: usize) -> (fanout: Option<Self>)
        ensures
            fanout is Some <==> 1 <= slots <= MAX_SLOTS,
            fanout matches Some(f) ==> f.spec_slots() == slots,
    {
        if 1 <= slots && slots <= MAX_SLOTS {
            let (tx, rx) = broadcast_pair::<T>(slots);
            Some(Fanout { tx, rx, slots })
        } else {
            None
        }
    }

    /// The number of slots the channel was opened with.
    #[verifier::when_used_as_spec(spec_slots)]
    pub fn slots(&self) -> (slots: usize)
        ensures
            slots == self.spec_slots(),
    {
        self.slots
    }

    /// Takes the channel apart into its sender and its first receiver.
    pub fn into_ends(self) -> (ends: (
        tokio::sync::broadcast::Sender<T>,
        tokio::sync::broadcast::Receiver<T>,
    ))
        ensures
            ends == (self.sender(), self.receiver()),
    {
        (self.tx, self.rx)
    }

    /// The sender that the channel was opened with. Further receivers
    /// subscribe at it and see what is sent from then on.
    pub closed spec fn sender(&self) -> tokio::sync::broadcast::Sender<T> {
        self.tx
    }

    /// The first receiver, which the channel was opened with.
    pub closed spec fn receiver(&self) -> tokio::sync::broadcast::Receiver<T> {
        self.rx
    }
}

impl<T> Link<T> {
    /// The sending end that the queue was opened with.
    pub closed spec fn sender(&self) -> async_channel::Sender<T> {
        self.tx
    }

    /// The receiving end that the queue was opened with.
    pub closed spec fn receiver(&self) -> async_channel::Receiver<T> {
        self.rx
    }
}

/// The channels of the pool service. `S` is the status report, `T` the new
/// template, `P` the new previous hash and `L` the solution, as the tasks of
/// the pool exchange them.
#[verifier::reject_recursive_types(S)]
#[verifier::reject_recursive_types(T)]
#[verifier::reject_recursive_types(P)]
#[verifier::reject_recursive_types(L)]
pub struct PoolFabric<S, T, P, L> {
    pub status: Link<S>,
    pub new_template: Link<T>,
    pub new_prev_hash: Link<P>,
    pub solution: Link<L>,
    pub message_received: Link<()>,
}

impl<S, T, P, L> PoolFabric<S, T, P, L> {
    /// Every queue has the capacity that [`PoolChannel`] gives for it.
    pub open spec fn follows_plan(&self) -> bool {
        &&& self.status.spec_capacity() == PoolChannel::Status.spec_capacity()
        &&& self.new_template.spec_capacity() == PoolChannel::NewTemplate.spec_capacity()
        &&& self.new_prev_hash.spec_capacity() == PoolChannel::NewPrevHash.spec_capacity()
        &&& self.solution.spec_capacity() == PoolChannel::Solution.spec_capacity()
        &&& self.message_received.spec_capacity() == PoolChannel::MessageReceived.spec_capacity()
    }

    /// Opens the queues of the pool service.
    pub fn open() -> (fabric: Self)
        ensures
            fabric.follows_plan(),
    {
        PoolFabric {
            status: Link::open(PoolChannel::Status.capacity()).unwrap(),
            new_template: Link::open(PoolChannel::NewTemplate.capacity()).unwrap(),
            new_prev_hash: Link::open(PoolChannel::NewPrevHash.capacity()).unwrap(),
            solution: Link::open(PoolChannel::Solution.capacity()).unwrap(),
            message_received: Link::open(PoolChannel::MessageReceived.capacity()).unwrap(),
        }
    }
}

/// The channels of the proxy service. `S` is the status report, `D` a message
/// of a mining device, `H` a share, `P` the new previous hash, `J` the new
/// extended job, `X` the extranonce with the identifier of the upstream
/// connection and `N` the job notification, as the tasks of the proxy
/// exchange them.
#[verifier::reject_recursive_types(S)]
#[verifier::reject_recursive_types(D)]
#[verifier::reject_recursive_types(H)]
#[verifier::reject_recursive_types(P)]
#[verifier::reject_recursive_types(J)]
#[verifier::reject_recursive_types(X)]
#[verifier::reject_recursive_types(N)]
pub struct ProxyFabric<S, D, H, P, J, X, N> {
    pub status: Link<S>,
    pub downstream_messages: Link<D>,
    pub submit_shares: Link<H>,
    pub new_prev_hash: Link<P>,
    pub new_extended_job: Link<J>,
    pub extranonce: Link<X>,
    pub notify: Fanout<N>,
}

impl<S, D, H, P, J, X, N: Clone> ProxyFabric<S, D, H, P, J, X, N> {
    /// Every queue has the capacity that [`ProxyChannel`] gives for it, and
    /// the broadcast channel has [`NOTIFY_SLOTS`] slots.
    pub open spec fn follows_plan(&self) -> bool {
        &&& self.status.spec_capacity() == ProxyChannel::Status.spec_capacity()
        &&& self.downstream_messages.spec_capacity()
            == ProxyChannel::DownstreamMessages.spec_capacity()
        &&& self.submit_shares.spec_capacity() == ProxyChannel::SubmitShares.spec_capacity()
        &&& self.new_prev_hash.spec_capacity() == ProxyChannel::NewPrevHash.spec_capacity()
        &&& self.new_extended_job.spec_capacity() == ProxyChannel::NewExtendedJob.spec_capacity()
        &&& self.extranonce.spec_capacity() == ProxyChannel::Extranonce.spec_capacity()
        &&& self.notify.spec_slots() == NOTIFY_SLOTS
    }

    /// Opens the channels of the proxy service.
    pub fn open() -> (fabric: Self)
        ensures
            fabric.follows_plan(),
    {
        ProxyFabric {
            status: Link::open(ProxyChannel::Status.capacity()).unwrap(),
            downstream_messages: Link::open(ProxyChannel::DownstreamMessages.capacity()).unwrap(),
            submit_shares: Link::open(ProxyChannel::SubmitShares.capacity()).unwrap(),
            new_prev_hash: Link::open(ProxyChannel::NewPrevHash.capacity()).unwrap(),
            new_extended_job: Link::open(ProxyChannel::NewExtendedJob.capacity()).unwrap(),
            extranonce: Link::open(ProxyChannel::Extranonce.capacity()).unwrap(),
            notify: Fanout::open(NOTIFY_SLOTS).unwrap(),
        }
    }
}

} // verus!
