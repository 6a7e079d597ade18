//! Requests in flight: which correlation identifiers still wait for a
//! response, and where to hand the response when it comes.

use vstd::prelude::*;
use std::collections::HashMap;
use tokio::sync::oneshot;

verus! {

broadcast use vstd::std_specs::hash::group_hash_axioms;

/// Declares `tokio::sync::oneshot::Sender`, the half that hands a
/// response to the caller that waits for it.
#[verifier::external_type_specification]
#[verifier::external_body]
#[verifier::reject_recursive_types(T)]
pub struct ExOneshotSender<T>(oneshot::Sender<T>);

/// Declares `tokio::sync::oneshot::Receiver`, the half a caller awaits.
#[verifier::external_type_specification]
#[verifier::external_body]
#[verifier::reject_recursive_types(T)]
pub struct ExOneshotReceiver<T>(oneshot::Receiver<T>);

/// Declares `tokio::sync::oneshot::error::RecvError`, what an awaited
/// receiving half gives when its sending half went away.
#[verifier::external_type_specification]
#[verifier::external_body]
pub struct ExOneshotRecvError(oneshot::error::RecvError);

/// A fresh one-shot pair (`tokio::sync::oneshot::channel`). Nothing is
/// stated of it: the two halves are linked inside tokio.
#[verifier::external_body]
fn oneshot_pair<T>() -> (oneshot::Sender<T>, oneshot::Receiver<T>) {
    oneshot::channel()
}

/// Hands `value` to the waiting half (`tokio::sync::oneshot::Sender::send`)
/// and tells whether it was taken. Whether it is depends on whether the
/// receiving half still exists, which is not stated.
#[verifier::external_body]
fn oneshot_deliver<T>(tx: oneshot::Sender<T>, value: T) -> (delivered: bool) {
    tx.send(value).is_ok()
}

/// The requests that wait for a response, by correlation identifier.
#[verifier::reject_recursive_types(T)]
pub struct PendingRequests<T> {
    requests: HashMap<u64, oneshot::Sender<T>>,
}

impl<T> View for PendingRequests<T> {
    type V = Set<u64>;

    /// The correlation identifiers that still wait.
    closed spec fn view(&self) -> Set<u64> {
        self.requests@.dom()
    }
}

impl<T> PendingRequests<T> {
    /// No request waits.
    pub fn new() -> (p: Self)
        ensures
            p@ == Set::<u64>::empty(),
    {
        PendingRequests { requests: HashMap::new() }
    }

    /// Registers a request; the returned half receives its response. A
    /// request already waiting under the same identifier is replaced.
    pub fn register(&mut self, correlation_id: u64) -> (rx: oneshot::Receiver<T>)
        ensures
            final(self)@ == old(self)@.insert(correlation_id),
    {
        let (tx, rx) = oneshot_pair();
        self.requests.insert(correlation_id, tx);
        rx
    }

    /// Hands `response` to the request with this identifier, which stops
    /// waiting. False where no such request waits, or where its caller no
    /// longer listens.
    pub fn complete(&mut self, correlation_id: u64, response: T) -> (done: bool)
        ensures
            final(self)@ == old(self)@.remove(correlation_id),
            done ==> old(self)@.contains(correlation_id),
    {
        match self.requests.remove(&correlation_id) {
            Some(tx) => oneshot_deliver(tx, response),
            None => false,
        }
    }

    /// Routes a received message: a response (not a request) that carries
    /// a correlation identifier completes the request it answers; any
    /// other message leaves the requests as they were and is dropped.
    pub fn dispatch_response(&mut self, correlation_id: Option<u64>, is_request: bool, payload: T) -> (done: bool)
        ensures
            correlation_id matches Some(id) ==> (!is_request ==> (final(self)@ == old(
                self,
            )@.remove(id) && (done ==> old(self)@.contains(id)))),
            !(correlation_id is Some && !is_request) ==> final(self)@ == old(self)@ && !done,
    {
        match correlation_id {
            Some(id) => {
                if is_request {
                    false
                } else {
                    self.complete(id, payload)
                }
            },
            None => false,
        }
    }

    /// Stops waiting for the request with this identifier (on a timeout,
    /// say); its caller sees the channel closed. True exactly where such a
    /// request waited.
    pub fn cancel(&mut self, correlation_id: u64) -> (found: bool)
        ensures
            final(self)@ == old(self)@.remove(correlation_id),
            found == old(self)@.contains(correlation_id),
    {
        self.requests.remove(&correlation_id).is_some()
    }

    /// Whether a request with this identifier waits.
    pub fn contains(&self, correlation_id: u64) -> (b: bool)
        ensures
            b == self@.contains(correlation_id),
    {
        self.requests.contains_key(&correlation_id)
    }

    /// How many requests wait.
    pub fn len(&self) -> (n: usize)
        ensures
            n == self@.len(),
    {
        self.requests.len()
    }

    /// Whether no request waits.
    pub fn is_empty(&self) -> (b: bool)
        ensures
            b == (self@.len() == 0),
    {
        let b = self.requests.is_empty();
        proof {
            if !b {
                let k = self.requests@.dom().choose();
                assert(self@.contains(k));
            }
        }
        b
    }
}

impl<T> Default for PendingRequests<T> {
    fn default() -> (p: Self)
        ensures
            p@ == Set::<u64>::empty(),
    {
        Self::new()
    }
}

/// A registered request is found when it is completed or cancelled, and
/// only once: afterwards it no longer waits, and the other requests wait
/// as before.
pub proof fn lemma_request_answered_once(waiting: Set<u64>, id: u64, other: u64)
    requires
        other != id,
    ensures
        waiting.insert(id).contains(id),
        !waiting.insert(id).remove(id).contains(id),
        waiting.insert(id).remove(id).contains(other) == waiting.contains(other),
{
}

} // verus!
