//! Multi-receiver broadcast for messages: one logical producer fans a value
//! stream out to a dynamically changing set of subscribers, each behind its
//! own single-slot queue. Delivery is best-effort: a full queue keeps its
//! pending value and the new message is dropped for that subscriber only,
//! while a subscriber whose receiving side was dropped is removed from the
//! topology during the next send.
use vstd::prelude::*;
use vstd::rwlock::{RwLock, RwLockPredicate};

use std::sync::Arc;
use std::time::Duration;

verus! {

/// The producing endpoint of one subscriber's bounded point-to-point queue,
/// crossbeam's channel primitive. The endpoint is opaque here; every
/// operation on it goes through a trusted wrapper below.
#[verifier::external_body]
#[verifier::reject_recursive_types(T)]
struct QueueSender<T> {
    inner: crossbeam_channel::Sender<T>,
}

/// The consuming endpoint of one subscriber's bounded queue.
#[verifier::external_body]
#[verifier::reject_recursive_types(T)]
struct QueueReceiver<T> {
    inner: crossbeam_channel::Receiver<T>,
}

/// Relies on crossbeam_channel::bounded: returns the two endpoints of a
/// fresh queue holding at most one value.
#[verifier::external_body]
fn queue_single_slot<T>() -> (r: (QueueSender<T>, QueueReceiver<T>)) {
    let (tx, rx) = crossbeam_channel::bounded(1);
    (QueueSender { inner: tx }, QueueReceiver { inner: rx })
}

/// Outcome of one non-blocking delivery attempt to a subscriber queue.
enum SendAttempt {
    /// The value was placed in the queue.
    Delivered,
    /// The queue still holds an unread value; the new one was dropped.
    Full,
    /// The receiving side of the queue was dropped.
    Disconnected,
}

/// Relies on crossbeam_channel::Sender::try_send: delivers without blocking;
/// a full queue keeps its pending value and reports `Full`, a queue whose
/// receiver was dropped reports `Disconnected`.
#[verifier::external_body]
fn queue_try_send<T>(queue: &QueueSender<T>, msg: T) -> (r: SendAttempt) {
    match queue.inner.try_send(msg) {
        Ok(()) => SendAttempt::Delivered,
        Err(crossbeam_channel::TrySendError::Full(_)) => SendAttempt::Full,
        Err(crossbeam_channel::TrySendError::Disconnected(_)) => SendAttempt::Disconnected,
    }
}

/// Why a bounded receive returned no value.
#[derive(Clone, Copy, Debug, PartialEq, Eq, Structural)]
pub enum RecvTimeoutError {
    /// The timeout elapsed while the queue stayed empty.
    Timeout,
    /// The queue is empty and the sending side is gone.
    Disconnected,
}

/// Relies on crossbeam_channel::Receiver::recv_timeout: blocks until a value
/// arrives, the queue is empty with the sending side gone, or the timeout
/// elapses; the two failures are reported apart.
#[verifier::external_body]
fn queue_recv_timeout<T>(queue: &QueueReceiver<T>, timeout: Duration) -> (r: Result<
    T,
    RecvTimeoutError,
>) {
    match queue.inner.recv_timeout(timeout) {
        Ok(v) => Ok(v),
        Err(crossbeam_channel::RecvTimeoutError::Timeout) => Err(RecvTimeoutError::Timeout),
        Err(crossbeam_channel::RecvTimeoutError::Disconnected) => Err(
            RecvTimeoutError::Disconnected,
        ),
    }
}

/// Relies on std's Arc::clone: the returned handle shares the original's
/// allocation, so as a value it equals the dereferenced original.
#[verifier::external_body]
fn share<T>(arc: &Arc<T>) -> (r: Arc<T>)
    ensures
        r == *arc,
{
    Arc::clone(arc)
}

/// Error type of `send`. Routing a message never fails as a whole, so `send`
/// never produces this value; it exists so that callers of `send` see the
/// conventional channel interface.
#[derive(Debug, PartialEq, Eq)]
pub struct SendError<T>(pub T);

/// The subscriber queues the producer side currently delivers to.
#[verifier::reject_recursive_types(T)]
struct Data<T> {
    channels: Vec<QueueSender<T>>,
}

/// The lock around the topology guards exclusive access only; any list of
/// subscriber queues is a valid state.
struct TopologyPred;

impl<T> RwLockPredicate<Data<T>> for TopologyPred {
    open spec fn inv(self, v: Data<T>) -> bool {
        true
    }
}

impl<T> Data<T> {
    /// Builds a topology whose single initial subscriber is the given queue.
    fn from_channel(tx: QueueSender<T>, rx: QueueReceiver<T>) -> (pair: (
        Sender<T>,
        Receiver<T>,
    )) where T: Clone
        ensures
            pair.0.serves(&pair.1),
    {
        let lock = RwLock::<Data<T>, TopologyPred>::new(
            Data { channels: vec![tx] },
            Ghost(TopologyPred),
        );
        let data = Arc::new(lock);
        let sender = Sender { data: share(&data) };
        let receiver = Receiver { data, channel: rx };
        (sender, receiver)
    }
}

/// Constructs a single-slot broadcast topology with exactly one initial
/// subscriber.
pub fn bounded<T>() -> (pair: (Sender<T>, Receiver<T>)) where T: Clone
    ensures
        pair.0.serves(&pair.1),
{
    let (tx, rx) = queue_single_slot();
    Data::from_channel(tx, rx)
}

/// The producer side of a broadcast topology. Clones share the one logical
/// producer: a value sent through any clone reaches all current subscribers.
#[verifier::reject_recursive_types(T)]
pub struct Sender<T> {
    data: Arc<RwLock<Data<T>, TopologyPred>>,
}

/// Whether `sub` can be read out of `s` by deleting elements: order and
/// multiplicity are preserved, nothing is added. Matching proceeds from the
/// back: when the last elements agree they are matched, otherwise the last
/// element of `s` goes unused.
spec fn subsequence_of<A>(sub: Seq<A>, s: Seq<A>) -> bool
    decreases s.len(),
{
    if sub.len() == 0 {
        true
    } else if s.len() == 0 {
        false
    } else if sub.last() == s.last() {
        subsequence_of(sub.drop_last(), s.drop_last())
    } else {
        subsequence_of(sub, s.drop_last())
    }
}

/// A subsequence stays one after its own last element is deleted.
proof fn lemma_subsequence_drop_last<A>(sub: Seq<A>, s: Seq<A>)
    requires
        subsequence_of(sub, s),
        sub.len() > 0,
    ensures
        subsequence_of(sub.drop_last(), s),
    decreases s.len(),
{
    let sd = sub.drop_last();
    if sub.last() == s.last() {
        if sd.len() > 0 && sd.last() == s.last() {
            lemma_subsequence_drop_last(sd, s.drop_last());
        }
    } else {
        lemma_subsequence_drop_last(sub, s.drop_last());
        if sd.len() > 0 && sd.last() == s.last() {
            lemma_subsequence_drop_last(sd, s.drop_last());
        }
    }
}

/// A subsequence of `s` is also one of `s` extended by any element.
proof fn lemma_subsequence_extend<A>(sub: Seq<A>, s: Seq<A>, x: A)
    requires
        subsequence_of(sub, s),
    ensures
        subsequence_of(sub, s.push(x)),
{
    assert(s.push(x).drop_last() =~= s);
    if sub.len() > 0 && sub.last() == x {
        lemma_subsequence_drop_last(sub, s);
    }
}

/// Extending a subsequence and its sequence by the same element keeps the
/// subsequence relation.
proof fn lemma_subsequence_push_both<A>(sub: Seq<A>, s: Seq<A>, x: A)
    requires
        subsequence_of(sub, s),
    ensures
        subsequence_of(sub.push(x), s.push(x)),
{
    assert(sub.push(x).drop_last() =~= sub);
    assert(s.push(x).drop_last() =~= s);
}

/// The inline garbage-collection rule of a send: a subscriber queue leaves
/// the topology exactly when its receiver was dropped. A queue that took the
/// message stays, and so does a full one — the value is then dropped for
/// that one subscriber, not the subscriber for the value.
fn keeps(attempt: &SendAttempt) -> (keep: bool)
    ensures
        keep == !(attempt is Disconnected),
{
    match attempt {
        SendAttempt::Delivered => true,
        SendAttempt::Full => true,
        SendAttempt::Disconnected => false,
    }
}

/// Attempts delivery of one message to every queue in order. The kept queues
/// are a subsequence of the old topology — order and multiplicity preserved,
/// nothing added — and each queue stays or leaves by what `keeps` rules on
/// that queue's own delivery attempt.
fn route<T: Clone>(channels: Vec<QueueSender<T>>, msg: &T) -> (kept: Vec<QueueSender<T>>)
    ensures
        subsequence_of(kept@, channels@),
        kept@.len() <= channels@.len(),
{
    let ghost all = channels@;
    let ghost mut idx: int = 0;
    let mut remaining = channels;
    let mut kept: Vec<QueueSender<T>> = Vec::new();
    while remaining.len() > 0
        invariant
            0 <= idx <= all.len(),
            idx + remaining@.len() == all.len(),
            remaining@ == all.skip(idx),
            subsequence_of(kept@, all.take(idx)),
            kept@.len() <= idx,
        decreases remaining@.len(),
    {
        let ghost kept0 = kept@;
        let ghost seen = all.take(idx);
        let tx = remaining.remove(0);
        proof {
            assert(tx == all[idx]);
            assert(remaining@ =~= all.skip(idx + 1));
            assert(seen.push(tx) =~= all.take(idx + 1));
        }
        let attempt = queue_try_send(&tx, msg.clone());
        if keeps(&attempt) {
            proof {
                lemma_subsequence_push_both(kept0, seen, tx);
            }
            kept.push(tx);
        } else {
            proof {
                lemma_subsequence_extend(kept0, seen, tx);
            }
        }
        proof {
            idx = idx + 1;
        }
    }
    proof {
        assert(all.take(idx) =~= all);
    }
    kept
}

impl<T> Sender<T> {
    /// Whether this handle and `other` are handles to the same logical
    /// producer side.
    pub closed spec fn same_topology(&self, other: &Sender<T>) -> bool {
        self.data == other.data
    }

    /// Whether `receiver` is subscribed to the topology this handle
    /// delivers to.
    pub closed spec fn serves(&self, receiver: &Receiver<T>) -> bool {
        self.data == receiver.data
    }
}

impl<T> Sender<T> where T: Clone {
    /// Delivers `msg` to every live subscriber without blocking: a subscriber
    /// whose single-slot queue still holds an unread value misses this one
    /// message, and a subscriber whose receiver was dropped is removed from
    /// the topology. Routing as a whole always succeeds.
    pub fn send(&self, msg: T) -> (r: Result<(), SendError<T>>)
        ensures
            r is Ok,
    {
        let (data, handle) = self.data.acquire_write();
        let kept = route(data.channels, &msg);
        handle.release_write(Data { channels: kept });
        Ok(())
    }

    /// The number of subscriber queues the topology currently holds; dropped
    /// subscribers still count until a send removes them.
    pub fn subscriber_count(&self) -> usize {
        let read_handle = self.data.acquire_read();
        let count = read_handle.borrow().channels.len();
        read_handle.release_read();
        count
    }
}

impl<T> Clone for Sender<T> {
    /// Another handle to the same logical producer side.
    fn clone(&self) -> (res: Self)
        ensures
            res.same_topology(self),
    {
        Self { data: share(&self.data) }
    }
}

/// One subscriber endpoint of a broadcast topology, with its own single-slot
/// queue.
#[verifier::reject_recursive_types(T)]
pub struct Receiver<T> {
    data: Arc<RwLock<Data<T>, TopologyPred>>,
    channel: QueueReceiver<T>,
}

impl<T> Receiver<T> {
    /// Whether this subscriber and `other` observe the same topology.
    pub closed spec fn same_topology(&self, other: &Receiver<T>) -> bool {
        self.data == other.data
    }

    /// Blocks until a value is available in this subscriber's queue, the
    /// producer side is gone (`Disconnected`), or the timeout elapses
    /// (`Timeout`).
    pub fn recv_timeout(&self, timeout: Duration) -> Result<T, RecvTimeoutError> {
        queue_recv_timeout(&self.channel, timeout)
    }
}

impl<T> Clone for Receiver<T> {
    /// A new, independent subscriber with its own single-slot queue,
    /// registered into the shared topology now; it only observes values sent
    /// after this call completes.
    fn clone(&self) -> (res: Self)
        ensures
            res.same_topology(self),
    {
        let (tx, rx) = queue_single_slot();
        let (data, handle) = self.data.acquire_write();
        let mut channels = data.channels;
        channels.push(tx);
        handle.release_write(Data { channels });
        Self { data: share(&self.data), channel: rx }
    }
}

} // verus!
